//! Properties of the service that span several calls or all inputs.
use vstd::prelude::*;
use vstd::utf8::{encode_utf8, is_ascii_chars, is_ascii_chars_encode_utf8};
use crate::catalogue::{
    catalogue_admission, import_precheck, link_label_ok, link_license_spec, product_ok,
    row_license_spec, settings_ok, stored_product, Product, Settings, FREE_ROW_LIMIT,
    IMPORT_ROW_CAP,
};
use crate::auth::{claims_ok, has_word, no_ascii_ws, word_at, Claims};
use crate::error::ApiError;
use crate::license::{is_unreserved, url_encode_bytes};
use crate::rate::{limit_for, rate_step_spec, replay, table_step, Window, WINDOW_NS};
use crate::requests::{
    demo_id_ok, demo_line_for, demo_request_from, DemoRequest, first_sample, in_samples, request_check, sample_table, DemoLine,
    RequestInput, RequestLine, DEMO_ID_LEN,
};
use crate::runtime::{digits_value, is_digit, parse_u16_spec, port_spec};
use crate::text::{
    first_index_of, first_segment, is_ascii_alnum, is_ascii_ws,
    byte_len, is_blank, lemma_trim_empty_iff_blank, lemma_trim_encode_len, lemma_trim_idempotent,
    trim_spec,
};
use crate::tokens::{is_hyphenated_uuid, is_token};

verus! {

/// No save of more than 5,000 rows is admitted, licensed or not.
pub proof fn law_import_cap_is_absolute(count: nat, x: Settings, licensed: bool)
    requires
        count > IMPORT_ROW_CAP,
    ensures
        catalogue_admission(count, x, licensed) == Err::<(), ApiError>(ApiError::TooManyRows),
{
}

/// With valid settings, a save of at most 12 rows is admitted with or
/// without a license.
pub proof fn law_small_catalogues_need_no_license(count: nat, x: Settings, licensed: bool)
    requires
        count <= FREE_ROW_LIMIT,
        settings_ok(x),
    ensures
        catalogue_admission(count, x, licensed) == Ok::<(), ApiError>(()),
{
}

/// With valid settings, a save of 13 to 5,000 rows is refused to a free
/// workspace and admitted to a licensed one.
pub proof fn law_license_raises_row_limit(count: nat, x: Settings)
    requires
        FREE_ROW_LIMIT < count <= IMPORT_ROW_CAP,
        settings_ok(x),
    ensures
        catalogue_admission(count, x, false) == Err::<(), ApiError>(ApiError::FreeRowLimit),
        catalogue_admission(count, x, true) == Ok::<(), ApiError>(()),
{
}

/// A free workspace may create its first client link but no second active
/// one; a licensed workspace may always create one more.
pub proof fn law_license_raises_link_limit(active: int)
    requires
        active >= 0,
    ensures
        link_license_spec(0, false) == Ok::<(), ApiError>(()),
        active >= 1 ==> link_license_spec(active, false) == Err::<(), ApiError>(
            ApiError::FreeLinkLimit,
        ),
        link_license_spec(active, true) == Ok::<(), ApiError>(()),
{
}

/// Every id a sample workspace is created with is accepted by the sample
/// endpoints, with no state shared between them.
pub proof fn law_created_demo_ids_are_accepted(id: Seq<char>)
    requires
        is_token(id, DEMO_ID_LEN as nat),
    ensures
        demo_id_ok(id),
{
    assert(is_ascii_chars(id));
    is_ascii_chars_encode_utf8(id);
}

/// The text fields of a row fit in memory, as those of any real string do.
pub open spec fn row_text_fits(p: Product) -> bool {
    &&& encode_utf8(p.sku@).len() <= usize::MAX
    &&& encode_utf8(p.name@).len() <= usize::MAX
    &&& encode_utf8(p.description@).len() <= usize::MAX
    &&& encode_utf8(p.category@).len() <= usize::MAX
    &&& encode_utf8(p.stock_note@).len() <= usize::MAX
}

/// Two rows hold the same values.
pub open spec fn same_row(a: Product, b: Product) -> bool {
    &&& a.id@ == b.id@
    &&& a.sku@ == b.sku@
    &&& a.name@ == b.name@
    &&& a.description@ == b.description@
    &&& a.category@ == b.category@
    &&& a.price_cents == b.price_cents
    &&& a.stock_note@ == b.stock_note@
}

/// Trimming keeps a bounded byte length within its bound.
proof fn lemma_trim_keeps_bound(s: Seq<char>, bound: nat)
    requires
        encode_utf8(s).len() <= usize::MAX,
        byte_len(s) <= bound,
    ensures
        byte_len(trim_spec(s)) <= bound,
{
    lemma_trim_encode_len(s);
}

/// A stored row is accepted when saved again, and saving it again stores it
/// unchanged: a catalogue that is loaded and saved back keeps every row.
pub proof fn law_stored_rows_are_stable(p: Product, q: Product, q2: Product)
    requires
        product_ok(p),
        row_text_fits(p),
        stored_product(p, q),
        stored_product(q, q2),
    ensures
        product_ok(q),
        same_row(q, q2),
{
    lemma_trim_idempotent(p.sku@);
    lemma_trim_idempotent(p.name@);
    lemma_trim_idempotent(p.description@);
    lemma_trim_idempotent(p.category@);
    lemma_trim_idempotent(p.stock_note@);
    lemma_trim_keeps_bound(p.sku@, 80);
    lemma_trim_keeps_bound(p.name@, 120);
    lemma_trim_keeps_bound(p.description@, 1000);
    lemma_trim_keeps_bound(p.category@, 80);
    lemma_trim_keeps_bound(p.stock_note@, 200);
    if p.id@.len() == 0 {
        assert(is_hyphenated_uuid(q.id@));
        assert(q.id@.len() > 0);
    }
}

/// The smaller of two numbers.
pub open spec fn min_nat(a: nat, b: nat) -> nat {
    if a <= b {
        a
    } else {
        b
    }
}

/// All of `times` fall within one window that starts at the first of them.
pub open spec fn within_first_window(times: Seq<u64>) -> bool {
    &&& times.len() > 0
    &&& forall|i: int|
        0 <= i < times.len() ==> times[0] <= #[trigger] times[i] && times[i] - times[0]
            < WINDOW_NS
}

/// The window and admissions after requests that all fall in the window of
/// the first.
proof fn lemma_replay_one_window(times: Seq<u64>, limit: u32)
    requires
        within_first_window(times),
        limit < u32::MAX,
    ensures
        replay(None, times, limit) == (
            Some(
                Window {
                    started_ns: times[0],
                    count: min_nat(times.len(), u32::MAX as nat) as u32,
                },
            ),
            min_nat(times.len(), limit as nat),
        ),
    decreases times.len(),
{
    let n = times.len();
    if n == 1 {
        assert(times.drop_last() =~= Seq::<u64>::empty());
    } else {
        let d = times.drop_last();
        assert(d[0] == times[0]);
        assert forall|i: int| 0 <= i < d.len() implies d[0] <= #[trigger] d[i] && d[i] - d[0]
            < WINDOW_NS by {
            assert(d[i] == times[i]);
        }
        lemma_replay_one_window(d, limit);
        let t = times.last();
        assert(times[n - 1] == t);
    }
}

/// Within one window of a caller's first request, the first `limit`
/// requests are admitted and every later one is refused.
pub proof fn law_window_admits_at_most_limit(times: Seq<u64>, limit: u32)
    requires
        within_first_window(times),
        limit < u32::MAX,
    ensures
        replay(None, times, limit).1 == min_nat(times.len(), limit as nat),
{
    lemma_replay_one_window(times, limit);
}

/// Once a request is refused, every request until its window ends is
/// refused too.
pub proof fn law_refusal_lasts_the_window(prev: Option<Window>, t1: u64, t2: u64, limit: u32)
    requires
        !rate_step_spec(prev, t1, limit).1,
        t2 < rate_step_spec(prev, t1, limit).0.started_ns + WINDOW_NS,
    ensures
        !rate_step_spec(Some(rate_step_spec(prev, t1, limit).0), t2, limit).1,
{
}

/// A full window after its start, a caller's count starts again from one.
pub proof fn law_window_resets(w: Window, now: u64, limit: u32)
    requires
        now >= w.started_ns + WINDOW_NS,
    ensures
        rate_step_spec(Some(w), now, limit) == (Window { started_ns: now, count: 1 }, 1 <= limit),
{
}

/// A request from one caller leaves every other caller's window exactly as
/// it was: callers' counts never affect each other.
pub proof fn law_other_callers_are_untouched(
    t: Map<Seq<char>, Window>,
    key: Seq<char>,
    other: Seq<char>,
    now: u64,
    limit: u32,
)
    requires
        other != key,
    ensures
        table_step(t, key, now, limit).0.contains_key(other) == t.contains_key(other),
        t.contains_key(other) ==> table_step(t, key, now, limit).0[other] == t[other],
{
}

/// Whether a caller's request is admitted, and the window it leaves behind,
/// depend only on that caller's own window, whatever the other callers did.
pub proof fn law_admission_depends_only_on_own_window(
    t1: Map<Seq<char>, Window>,
    t2: Map<Seq<char>, Window>,
    key: Seq<char>,
    now: u64,
    limit: u32,
)
    requires
        t1.contains_key(key) == t2.contains_key(key),
        t1.contains_key(key) ==> t1[key] == t2[key],
    ensures
        table_step(t1, key, now, limit).1 == table_step(t2, key, now, limit).1,
        table_step(t1, key, now, limit).0[key] == table_step(t2, key, now, limit).0[key],
{
}

/// A caller without a window starts one at `now` with this request as its
/// first, admitted unless the limit is zero; no other caller's window changes.
pub proof fn law_first_request_of_a_caller(
    t: Map<Seq<char>, Window>,
    key: Seq<char>,
    now: u64,
    limit: u32,
)
    requires
        !t.contains_key(key),
    ensures
        table_step(t, key, now, limit) == (t.insert(key, Window { started_ns: now, count: 1 }), 1
            <= limit),
{
}

/// A request inside its caller's window (less than one second after the
/// window started) counts one more in that same window, and is admitted
/// exactly when the new count is within the limit. In particular a caller
/// that already made `limit` requests in the window is refused (for any limit
/// below `u32::MAX`, where the count stops), and its count keeps growing
/// until the window ends.
pub proof fn law_requests_inside_a_window_keep_counting(
    t: Map<Seq<char>, Window>,
    key: Seq<char>,
    now: u64,
    limit: u32,
)
    requires
        t.contains_key(key),
        t[key].started_ns <= now,
        now < t[key].started_ns + 1_000_000_000,
    ensures
        ({
            let w = t[key];
            let c: u32 = if w.count < 4_294_967_295 {
                (w.count + 1) as u32
            } else {
                4_294_967_295
            };
            table_step(t, key, now, limit) == (
                t.insert(key, Window { started_ns: w.started_ns, count: c }),
                c <= limit,
            )
        }),
        t[key].count >= limit && limit < 4_294_967_295 ==> !table_step(t, key, now, limit).1,
        t[key].count >= limit && t[key].count < 4_294_967_295 ==> table_step(
            t,
            key,
            now,
            limit,
        ).0[key] == (Window { started_ns: t[key].started_ns, count: (t[key].count + 1) as u32 }),
{
}

/// A request one second or more after its caller's window started opens a
/// new window at `now` in which it is the first request.
pub proof fn law_window_restarts_after_a_second(
    t: Map<Seq<char>, Window>,
    key: Seq<char>,
    now: u64,
    limit: u32,
)
    requires
        t.contains_key(key),
        now >= t[key].started_ns + 1_000_000_000,
    ensures
        table_step(t, key, now, limit) == (t.insert(key, Window { started_ns: now, count: 1 }), 1
            <= limit),
{
}

/// `POST`, `PUT` and `DELETE` may be made 12 times per window; every other
/// method 40 times.
pub proof fn law_method_limits(m: Seq<char>)
    ensures
        (m == "POST"@ || m == "PUT"@ || m == "DELETE"@) ==> limit_for(m) == 12,
        !(m == "POST"@ || m == "PUT"@ || m == "DELETE"@) ==> limit_for(m) == 40,
{
}

/// The checks of a catalogue save before any license: more than 5,000 rows
/// is refused first, then invalid settings; otherwise a license is asked for
/// exactly when the save has more than 12 rows.
pub proof fn law_import_check(count: nat, x: Settings)
    ensures
        count > 5000 ==> import_precheck(count, x) == Err::<bool, ApiError>(ApiError::TooManyRows),
        count <= 5000 && !settings_ok(x) ==> import_precheck(count, x) == Err::<bool, ApiError>(
            ApiError::InvalidSettings,
        ),
        count <= 5000 && settings_ok(x) ==> import_precheck(count, x) == Ok::<bool, ApiError>(
            count > 12,
        ),
{
}

/// A save of more than 12 rows is refused exactly when no license is active.
pub proof fn law_row_license(count: nat, licensed: bool)
    ensures
        row_license_spec(count, licensed) == (if count > 12 && !licensed {
            Err(ApiError::FreeRowLimit)
        } else {
            Ok(())
        }),
{
}

/// Settings are accepted exactly when the business name and price label are
/// not blank, the business name is at most 80 bytes, the price label at most
/// 40, the tax note at most 160, and the currency three bytes once trimmed.
pub proof fn law_settings_check(x: Settings)
    ensures
        settings_ok(x) <==> (!is_blank(x.business_name@) && byte_len(x.business_name@) <= 80
            && !is_blank(x.price_label@) && byte_len(x.price_label@) <= 40 && byte_len(x.tax_note@)
            <= 160 && byte_len(trim_spec(x.currency@)) == 3),
{
    lemma_trim_empty_iff_blank(x.business_name@);
    lemma_trim_empty_iff_blank(x.price_label@);
}

/// A catalogue row is accepted exactly when its SKU and name are not blank,
/// its SKU is at most 80 bytes, its name at most 120, its description at most
/// 1,000, its category at most 80, its stock note at most 200, and its price,
/// when given, is not negative.
pub proof fn law_row_check(p: Product)
    ensures
        product_ok(p) <==> (!is_blank(p.sku@) && !is_blank(p.name@) && byte_len(p.sku@) <= 80
            && byte_len(p.name@) <= 120 && byte_len(p.description@) <= 1000 && byte_len(
            p.category@,
        ) <= 80 && byte_len(p.stock_note@) <= 200 && (p.price_cents is None
            || p.price_cents->0 >= 0)),
        is_blank(p.name@) ==> !product_ok(p),
        is_blank(p.sku@) ==> !product_ok(p),
{
    lemma_trim_empty_iff_blank(p.sku@);
    lemma_trim_empty_iff_blank(p.name@);
}

/// A link label is accepted exactly when it has at least two bytes once
/// trimmed and at most 120 bytes as sent.
pub proof fn law_link_label_check(label: Seq<char>)
    ensures
        link_label_ok(label) <==> (byte_len(trim_spec(label)) >= 2 && byte_len(label) <= 120),
{
}

/// One more link is refused exactly when the workspace already has an
/// active link and no license.
pub proof fn law_link_license(active: int, licensed: bool)
    ensures
        link_license_spec(active, licensed) == (if active >= 1 && !licensed {
            Err(ApiError::FreeLinkLimit)
        } else {
            Ok(())
        }),
{
}

/// A quote request is accepted exactly when its name and company have at
/// least two bytes once trimmed, its email holds `@` and has at most 254
/// bytes, its PO number at most 80, its note at most 2,000, it has 1 to 100
/// lines with quantities from 1 to 9,999, and no product is on two lines.
pub proof fn law_request_check(x: RequestInput)
    ensures
        request_check(x) is Ok <==> (byte_len(trim_spec(x.client_name@)) >= 2 && byte_len(
            trim_spec(x.company@),
        ) >= 2 && x.email@.contains('@') && byte_len(x.email@) <= 254 && byte_len(x.po_number@)
            <= 80 && byte_len(x.note@) <= 2000 && 1 <= x.lines@.len() <= 100 && (forall|i: int|
            0 <= i < x.lines@.len() ==> 1 <= #[trigger] x.lines@[i].quantity <= 9999) && (forall|
            i: int,
            j: int,
        |
            0 <= i < j < x.lines@.len() ==> (#[trigger] x.lines@[i]).product_id@
                != (#[trigger] x.lines@[j]).product_id@)),
{
}

/// A request that names one product on two lines is refused.
pub proof fn law_repeated_product_is_refused(x: RequestInput, i: int, j: int)
    requires
        0 <= i < j < x.lines@.len(),
        x.lines@[i].product_id@ == x.lines@[j].product_id@,
    ensures
        request_check(x) is Err,
{
    assert(!(forall|a: int, b: int|
        0 <= a < b < x.lines@.len() ==> (#[trigger] x.lines@[a]).product_id@
            != (#[trigger] x.lines@[b]).product_id@));
}

/// The sample catalogue holds exactly the products `p1` to `p6`.
pub proof fn law_sample_ids(pid: Seq<char>)
    ensures
        in_samples(pid) <==> (pid == "p1"@ || pid == "p2"@ || pid == "p3"@ || pid == "p4"@ || pid
            == "p5"@ || pid == "p6"@),
{
    if pid == "p1"@ {
        assert(sample_table()[0].0 == pid);
    }
    if pid == "p2"@ {
        assert(sample_table()[1].0 == pid);
    }
    if pid == "p3"@ {
        assert(sample_table()[2].0 == pid);
    }
    if pid == "p4"@ {
        assert(sample_table()[3].0 == pid);
    }
    if pid == "p5"@ {
        assert(sample_table()[4].0 == pid);
    }
    if pid == "p6"@ {
        assert(sample_table()[5].0 == pid);
    }
}

/// The line a sample request gets for each sample product: its own SKU, name
/// and price, with the quantity asked for.
pub proof fn law_sample_lines(l: RequestLine, d: DemoLine)
    requires
        demo_line_for(l, d),
    ensures
        d.product_id@ == l.product_id@,
        d.quantity == l.quantity,
        l.product_id@ == "p1"@ ==> d.sku@ == "NW-101"@ && d.name@ == "Recycled counter notebook"@
            && d.price_cents == Some(850i64),
        l.product_id@ == "p2"@ ==> d.sku@ == "NW-114"@ && d.name@ == "Brass desk ruler"@
            && d.price_cents == Some(1250i64),
        l.product_id@ == "p3"@ ==> d.sku@ == "PK-220"@ && d.name@ == "Kraft dispatch box"@
            && d.price_cents == Some(1890i64),
        l.product_id@ == "p4"@ ==> d.sku@ == "PK-228"@ && d.name@ == "Custom paper tape"@
            && d.price_cents == None::<i64>,
        l.product_id@ == "p5"@ ==> d.sku@ == "SV-410"@ && d.name@ == "Shelf label set"@
            && d.price_cents == Some(2400i64),
        l.product_id@ == "p6"@ ==> d.sku@ == "SV-421"@ && d.name@ == "Oak display riser"@
            && d.price_cents == None::<i64>,
{
    reveal_strlit("p1");
    reveal_strlit("p2");
    reveal_strlit("p3");
    reveal_strlit("p4");
    reveal_strlit("p5");
    reveal_strlit("p6");
    let i = choose|i: int|
        first_sample(l.product_id@, i) && {
            let t = #[trigger] sample_table()[i];
            d.product_id@ == t.0 && d.sku@ == t.1 && d.name@ == t.2 && d.price_cents == t.3
                && d.quantity == l.quantity
        };
    assert(first_sample(l.product_id@, i));
    assert("p1"@[1] == '1' && "p2"@[1] == '2' && "p3"@[1] == '3');
    assert("p4"@[1] == '4' && "p5"@[1] == '5' && "p6"@[1] == '6');
    assert(sample_table()[i].0 == l.product_id@);
    if i > 0 {
        assert(sample_table()[0].0 != l.product_id@);
    }
    if i > 1 {
        assert(sample_table()[1].0 != l.product_id@);
    }
    if i > 2 {
        assert(sample_table()[2].0 != l.product_id@);
    }
    if i > 3 {
        assert(sample_table()[3].0 != l.product_id@);
    }
    if i > 4 {
        assert(sample_table()[4].0 != l.product_id@);
    }
}

/// The part of a header before its first separator: the longest prefix
/// holding no separator, ended by the separator or by the end of the text.
pub proof fn law_first_segment(v: Seq<char>, sep: char)
    ensures
        ({
            let n = first_segment(v, sep).len() as int;
            &&& n <= v.len()
            &&& first_segment(v, sep) == v.take(n)
            &&& (n == v.len() || v[n] == sep)
            &&& forall|i: int| 0 <= i < n ==> v[i] != sep
        }),
{
    lemma_first_index_of(v, sep);
}

proof fn lemma_first_index_of(v: Seq<char>, sep: char)
    ensures
        0 <= first_index_of(v, sep) <= v.len(),
        first_index_of(v, sep) < v.len() ==> v[first_index_of(v, sep)] == sep,
        forall|i: int| 0 <= i < first_index_of(v, sep) ==> v[i] != sep,
    decreases v.len(),
{
    if v.len() > 0 && v[0] != sep {
        lemma_first_index_of(v.drop_first(), sep);
        assert forall|i: int| 0 <= i < first_index_of(v, sep) implies v[i] != sep by {
            if i > 0 {
                assert(v[i] == v.drop_first()[i - 1]);
            }
        }
    }
}

/// In a text without ASCII whitespace the only word is the whole text: a
/// scope list grants a scope only when a word equals it exactly, never when
/// the scope is merely a prefix or part of a longer word.
pub proof fn law_whole_word_only(s: Seq<char>, w: Seq<char>)
    requires
        no_ascii_ws(s),
    ensures
        has_word(s, w) <==> s == w,
{
    if has_word(s, w) {
        let i = choose|i: int| word_at(s, w, i);
        if i > 0 {
            assert(!is_ascii_ws(s[i - 1]));
        }
        if i + w.len() < s.len() {
            assert(!is_ascii_ws(s[i + w.len()]));
        }
        assert(s.subrange(0, s.len() as int) =~= s);
    }
    if s == w {
        assert(s.subrange(0, s.len() as int) =~= s);
        assert(word_at(s, w, 0));
    }
}

/// A verified token signs a seller in exactly when it is from the tenant
/// `35c6fe40-0ec0-46b6-98c6-213ad4de6650`, names a non-empty account, and
/// grants the scope `access_as_user` as a whole word.
pub proof fn law_claims_check(c: Claims)
    ensures
        claims_ok(c) <==> (c.tid@ == "35c6fe40-0ec0-46b6-98c6-213ad4de6650"@ && c.oid@.len() > 0
            && has_word(c.scp@, "access_as_user"@)),
{
}

/// A sample workspace id is accepted exactly when it is 32 bytes of ASCII
/// letters and digits.
pub proof fn law_demo_id_check(id: Seq<char>)
    ensures
        demo_id_ok(id) <==> (byte_len(id) == 32 && forall|i: int|
            0 <= i < id.len() ==> is_ascii_alnum(#[trigger] id[i])),
{
}

/// A sample request keeps each contact field trimmed in its own place, is
/// marked `New` with the given time, has one line per request line, and
/// gets an id `RQ-DEMO-` with four uppercase hexadecimal digits.
pub proof fn law_sample_request_fields(x: RequestInput, created_at: Seq<char>, d: DemoRequest)
    requires
        demo_request_from(x, created_at, d),
    ensures
        d.client_name@ == trim_spec(x.client_name@),
        d.company@ == trim_spec(x.company@),
        d.email@ == trim_spec(x.email@),
        d.po_number@ == trim_spec(x.po_number@),
        d.note@ == trim_spec(x.note@),
        d.status@ == "New"@,
        d.created_at@ == created_at,
        d.lines@.len() == x.lines@.len(),
        d.id@.len() == 12,
        d.id@.take(8) == "RQ-DEMO-"@,
{
    reveal_strlit("RQ-DEMO-");
}

/// A stored row keeps its id (or gets a 36-character one when it had none),
/// its price, and each text field trimmed in its own place.
pub proof fn law_stored_row_fields(p: Product, q: Product)
    requires
        stored_product(p, q),
    ensures
        p.id@.len() > 0 ==> q.id@ == p.id@,
        p.id@.len() == 0 ==> q.id@.len() == 36,
        q.sku@ == trim_spec(p.sku@),
        q.name@ == trim_spec(p.name@),
        q.description@ == trim_spec(p.description@),
        q.category@ == trim_spec(p.category@),
        q.stock_note@ == trim_spec(p.stock_note@),
        q.price_cents == p.price_cents,
{
}

/// A port setting of decimal digits selects its value when that is at most
/// 65535, with or without one leading `+`; a larger value, an empty setting,
/// a lone `+` or no setting at all selects 8080.
pub proof fn law_port_setting(d: Seq<char>)
    requires
        d.len() > 0,
        forall|i: int| 0 <= i < d.len() ==> is_digit(#[trigger] d[i]),
    ensures
        digits_value(d) <= 65535 ==> port_spec(Some(d)) == digits_value(d) as u16,
        digits_value(d) <= 65535 ==> port_spec(Some(seq!['+'] + d)) == digits_value(d) as u16,
        digits_value(d) > 65535 ==> port_spec(Some(d)) == 8080,
        port_spec(Some(Seq::<char>::empty())) == 8080,
        port_spec(Some(seq!['+'])) == 8080,
        port_spec(None) == 8080,
{
    assert(!is_digit('+'));
    assert((seq!['+'] + d).drop_first() =~= d);
    assert(seq!['+'].drop_first() =~= Seq::<char>::empty());
}

/// URL encoding works byte by byte: encoding two byte strings one after the
/// other gives the encoding of the two joined.
pub proof fn law_url_encoding_concat(a: Seq<u8>, b: Seq<u8>)
    ensures
        url_encode_bytes(a + b) == url_encode_bytes(a) + url_encode_bytes(b),
    decreases a.len(),
{
    if a.len() == 0 {
        assert(a + b =~= b);
        assert(url_encode_bytes(a) =~= Seq::<char>::empty());
        assert(url_encode_bytes(a) + url_encode_bytes(b) =~= url_encode_bytes(b));
    } else {
        assert((a + b).drop_first() =~= a.drop_first() + b);
        assert((a + b)[0] == a[0]);
        law_url_encoding_concat(a.drop_first(), b);
        let h = if is_unreserved(a[0]) {
            seq![(a[0] as u32) as char]
        } else {
            seq!['%', crate::license::hex_upper((a[0] / 16) as nat), crate::license::hex_upper((a[0] % 16) as nat)]
        };
        assert(url_encode_bytes(a + b) == h + url_encode_bytes(a.drop_first() + b));
        assert(url_encode_bytes(a) == h + url_encode_bytes(a.drop_first()));
        assert(h + (url_encode_bytes(a.drop_first()) + url_encode_bytes(b)) =~= (h
            + url_encode_bytes(a.drop_first())) + url_encode_bytes(b));
    }
}

/// Bytes that need no escaping come out as the same characters.
pub proof fn law_url_encoding_keeps_unreserved(b: Seq<u8>)
    requires
        forall|i: int| 0 <= i < b.len() ==> is_unreserved(#[trigger] b[i]),
    ensures
        url_encode_bytes(b) == b.map_values(|x: u8| (x as u32) as char),
    decreases b.len(),
{
    if b.len() > 0 {
        law_url_encoding_keeps_unreserved(b.drop_first());
        assert(is_unreserved(b[0]));
        assert(b.map_values(|x: u8| (x as u32) as char) =~= seq![(b[0] as u32) as char]
            + b.drop_first().map_values(|x: u8| (x as u32) as char));
    } else {
        assert(b.map_values(|x: u8| (x as u32) as char) =~= Seq::<char>::empty());
    }
}

} // verus!
