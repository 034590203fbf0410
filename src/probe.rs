use vstd::prelude::*;

use crate::error::{InstallError, InstallErrorV};

verus! {

#[verifier::external_type_specification]
#[verifier::external_body]
#[verifier::reject_recursive_types(T)]
pub struct ExHeaderMap<T>(reqwest::header::HeaderMap<T>);

/// The element type of `HeaderMap`, carried through opaquely.
#[verifier::external_type_specification]
#[verifier::external_body]
pub struct ExHeaderValue(reqwest::header::HeaderValue);

/// The fields of a header map as `HeaderMap::get` sees them: for each name
/// string under which `get` finds a value, the bytes of the first value stored
/// under that name.
pub uninterp spec fn header_fields(h: reqwest::header::HeaderMap) -> Map<Seq<char>, Seq<u8>>;

/// Relies on `HeaderMap::get` (first value under a name, or none) and
/// `HeaderValue::as_bytes` (the value's bytes).
#[verifier::external_body]
fn header_bytes(h: &reqwest::header::HeaderMap, name: &str) -> (r: Option<Vec<u8>>)
    ensures
        r is Some == header_fields(*h).contains_key(name@),
        r is Some ==> r->0@ == header_fields(*h)[name@],
{
    h.get(name).map(|v| v.as_bytes().to_vec())
}

/// Relies on `String::from_utf8`: bytes below 128 are valid UTF-8, one
/// character each, with the same code point.
#[verifier::external_body]
fn ascii_text(b: Vec<u8>) -> (r: String)
    requires
        forall|i: int| 0 <= i < b@.len() ==> b@[i] < 128,
    ensures
        r@ == ascii_chars(b@),
{
    match String::from_utf8(b) {
        Ok(s) => s,
        Err(_) => String::new(),
    }
}

pub open spec fn ascii_chars(b: Seq<u8>) -> Seq<char> {
    b.map_values(|x: u8| x as char)
}

/// A status of the success class (2xx).
pub open spec fn is_success(status: u16) -> bool {
    200 <= status < 300
}

/// A status of the redirect class (3xx).
pub open spec fn is_redirect(status: u16) -> bool {
    300 <= status < 400
}

pub fn status_is_success(status: u16) -> (r: bool)
    ensures
        r == is_success(status),
{
    200 <= status && status < 300
}

pub fn status_is_redirect(status: u16) -> (r: bool)
    ensures
        r == is_redirect(status),
{
    300 <= status && status < 400
}

/// The header that names the content: a redirect advertises its target's.
pub open spec fn identity_field(status: u16) -> Seq<char> {
    if is_redirect(status) {
        "x-linked-etag"@
    } else {
        "etag"@
    }
}

/// The header that gives the content's size: a redirect advertises its target's.
pub open spec fn size_field(status: u16) -> Seq<char> {
    if is_redirect(status) {
        "x-linked-size"@
    } else {
        "content-length"@
    }
}

/// A byte that a header value may hold and still be read as text.
pub open spec fn is_visible(b: u8) -> bool {
    (32 <= b && b < 127) || b == 9
}

pub open spec fn visible_text(s: Seq<u8>) -> bool {
    forall|i: int| 0 <= i < s.len() ==> is_visible(s[i])
}

pub open spec fn is_quote(b: u8) -> bool {
    b == 34
}

/// The bytes with every leading and every trailing double quote removed.
pub open spec fn strip_quotes(s: Seq<u8>) -> Seq<u8>
    decreases s.len(),
{
    if s.len() > 0 && is_quote(s[0]) {
        strip_quotes(s.drop_first())
    } else if s.len() > 0 && is_quote(s.last()) {
        strip_quotes(s.drop_last())
    } else {
        s
    }
}

/// An identifier that names one flat file of the cache directory: not empty,
/// no path separator, and neither `.` nor `..`.
pub open spec fn usable_id(s: Seq<u8>) -> bool {
    &&& s.len() > 0
    &&& forall|i: int| 0 <= i < s.len() ==> s[i] != 47 && s[i] != 92
    &&& s != seq![46u8]
    &&& s != seq![46u8, 46u8]
}

pub open spec fn is_digit(b: u8) -> bool {
    48 <= b <= 57
}

pub open spec fn all_digits(s: Seq<u8>) -> bool {
    forall|i: int| 0 <= i < s.len() ==> is_digit(s[i])
}

/// The number that a string of decimal digits writes.
pub open spec fn digits_value(s: Seq<u8>) -> nat
    decreases s.len(),
{
    if s.len() == 0 {
        0
    } else {
        digits_value(s.drop_last()) * 10 + (s.last() - 48) as nat
    }
}

/// The digits of a size, after an optional leading `+`.
pub open spec fn size_digits(s: Seq<u8>) -> Seq<u8> {
    if s.len() > 0 && s[0] == 43 {
        s.drop_first()
    } else {
        s
    }
}

/// The size that a header value states: decimal digits after an optional `+`,
/// whose value fits in 64 bits. Anything else states no size.
pub open spec fn size_value(s: Seq<u8>) -> Option<u64> {
    let d = size_digits(s);
    if d.len() > 0 && all_digits(d) && digits_value(d) <= u64::MAX {
        Some(digits_value(d) as u64)
    } else {
        None
    }
}

/// The probe's answer holds a usable identifier in the identity header of the
/// namespace that its status selects.
pub open spec fn identity_usable(status: u16, fields: Map<Seq<char>, Seq<u8>>) -> bool {
    let id_key = identity_field(status);
    &&& fields.contains_key(id_key)
    &&& visible_text(fields[id_key])
    &&& usable_id(strip_quotes(fields[id_key]))
}

/// What a probe answered with `status` and header `fields` says of the
/// resource at `url`: its identifier and, when known, its size.
pub open spec fn resolution(url: Seq<char>, status: u16, fields: Map<Seq<char>, Seq<u8>>) -> Result<
    (Seq<char>, Option<u64>),
    InstallErrorV,
> {
    let id_key = identity_field(status);
    let size_key = size_field(status);
    if !identity_usable(status, fields) {
        Err(InstallErrorV::MissingIdentity { url })
    } else if !(is_success(status) || is_redirect(status)) {
        Err(InstallErrorV::FetchFailed { url, status })
    } else {
        let size = if fields.contains_key(size_key) {
            size_value(fields[size_key])
        } else {
            None
        };
        Ok((ascii_chars(strip_quotes(fields[id_key])), size))
    }
}

/// The identity of a remote resource: its content identifier and, when the
/// host states it, its size in bytes.
#[derive(Clone, Debug, PartialEq, Eq)]
pub struct Identity {
    pub id: String,
    pub size: Option<u64>,
}

impl View for Identity {
    type V = (Seq<char>, Option<u64>);

    open spec fn view(&self) -> (Seq<char>, Option<u64>) {
        (self.id@, self.size)
    }
}

pub open spec fn identity_result_view(r: Result<Identity, InstallError>) -> Result<
    (Seq<char>, Option<u64>),
    InstallErrorV,
> {
    match r {
        Ok(i) => Ok(i@),
        Err(e) => Err(e@),
    }
}


/// Whether every byte may stand in header text.
pub fn is_visible_text(s: &Vec<u8>) -> (r: bool)
    ensures
        r == visible_text(s@),
{
    let mut i: usize = 0;
    while i < s.len()
        invariant
            i <= s@.len(),
            forall|j: int| 0 <= j < i ==> is_visible(s@[j]),
        decreases s@.len() - i,
    {
        let b = s[i];
        if !((32 <= b && b < 127) || b == 9) {
            return false;
        }
        i = i + 1;
    }
    true
}

/// The bytes with every leading and every trailing double quote removed.
pub fn trim_quotes(s: &Vec<u8>) -> (r: Vec<u8>)
    ensures
        r@ == strip_quotes(s@),
{
    let n = s.len();
    let mut lo: usize = 0;
    assert(s@.subrange(0, n as int) =~= s@);
    while lo < n && s[lo] == 34
        invariant
            lo <= n,
            n == s@.len(),
            strip_quotes(s@.subrange(lo as int, n as int)) == strip_quotes(s@),
        decreases n - lo,
    {
        let ghost t = s@.subrange(lo as int, n as int);
        assert(t.drop_first() =~= s@.subrange(lo + 1, n as int));
        lo = lo + 1;
    }
    let mut hi: usize = n;
    while hi > lo && s[hi - 1] == 34
        invariant
            lo <= hi <= n,
            n == s@.len(),
            lo < n ==> !is_quote(s@[lo as int]),
            strip_quotes(s@.subrange(lo as int, hi as int)) == strip_quotes(s@),
        decreases hi - lo,
    {
        let ghost t = s@.subrange(lo as int, hi as int);
        assert(t.drop_last() =~= s@.subrange(lo as int, hi - 1));
        hi = hi - 1;
    }
    let mut r: Vec<u8> = Vec::new();
    let mut i: usize = lo;
    while i < hi
        invariant
            lo <= i <= hi <= n,
            n == s@.len(),
            r@ =~= s@.subrange(lo as int, i as int),
        decreases hi - i,
    {
        r.push(s[i]);
        i = i + 1;
    }
    r
}

/// Whether the bytes name one flat file of the cache directory.
pub fn is_usable_id(s: &Vec<u8>) -> (r: bool)
    ensures
        r == usable_id(s@),
{
    let n = s.len();
    if n == 0 {
        return false;
    }
    if n == 1 && s[0] == 46 {
        assert(s@ =~= seq![46u8]);
        return false;
    }
    if n == 2 && s[0] == 46 && s[1] == 46 {
        assert(s@ =~= seq![46u8, 46u8]);
        return false;
    }
    let mut i: usize = 0;
    while i < n
        invariant
            i <= n,
            n == s@.len(),
            forall|j: int| 0 <= j < i ==> s@[j] != 47 && s@[j] != 92,
        decreases n - i,
    {
        if s[i] == 47 || s[i] == 92 {
            return false;
        }
        i = i + 1;
    }
    true
}

proof fn lemma_digits_prefix_grows(s: Seq<u8>, j: int, k: int)
    requires
        0 <= j <= k <= s.len(),
        forall|i: int| 0 <= i < s.len() ==> is_digit(s[i]),
    ensures
        digits_value(s.subrange(0, j)) <= digits_value(s.subrange(0, k)),
    decreases k - j,
{
    if j < k {
        lemma_digits_prefix_grows(s, j, k - 1);
        assert(s.subrange(0, k).drop_last() =~= s.subrange(0, k - 1));
    }
}

/// The size that a header value states, if it states one.
pub fn parse_size(s: &Vec<u8>) -> (r: Option<u64>)
    ensures
        r == size_value(s@),
{
    let n = s.len();
    let start: usize = if n > 0 && s[0] == 43 {
        1
    } else {
        0
    };
    let ghost d = size_digits(s@);
    assert(d =~= s@.subrange(start as int, n as int));
    if start >= n {
        return None;
    }
    let mut acc: u64 = 0;
    let mut i: usize = start;
    while i < n
        invariant
            start <= i <= n,
            n == s@.len(),
            d == s@.subrange(start as int, n as int),
            d == size_digits(s@),
            acc as nat == digits_value(d.subrange(0, i - start)),
            forall|j: int| 0 <= j < i - start ==> is_digit(d[j]),
        decreases n - i,
    {
        let b = s[i];
        if b < 48 || b > 57 {
            assert(d[i - start] == b);
            assert(!all_digits(d));
            return None;
        }
        let ghost k = i - start;
        assert(d.subrange(0, k + 1).drop_last() =~= d.subrange(0, k));
        assert(digits_value(d.subrange(0, k + 1)) == acc * 10 + (b - 48) as nat);
        let ten = acc.checked_mul(10);
        match ten {
            None => {
                proof {
                    assert(acc * 10 > u64::MAX);
                    assert(digits_value(d.subrange(0, k + 1)) > u64::MAX);
                    if all_digits(d) {
                        lemma_digits_prefix_grows(d, k + 1, d.len() as int);
                        assert(d.subrange(0, d.len() as int) =~= d);
                    }
                }
                return None;
            },
            Some(t) => {
                match t.checked_add((b - 48) as u64) {
                    None => {
                        proof {
                            assert(digits_value(d.subrange(0, k + 1)) > u64::MAX);
                            if all_digits(d) {
                                lemma_digits_prefix_grows(d, k + 1, d.len() as int);
                                assert(d.subrange(0, d.len() as int) =~= d);
                            }
                        }
                        return None;
                    },
                    Some(v) => {
                        acc = v;
                    },
                }
            },
        }
        i = i + 1;
    }
    assert(d.subrange(0, d.len() as int) =~= d);
    Some(acc)
}

/// Reads a probe's answer: the status decides which header namespace holds the
/// identity (a redirect advertises its target's), the identifier is the
/// header's text without surrounding quotes, and the size is best-effort.
/// Without a usable identifier the answer fails with `MissingIdentity`; with
/// one, a status that is neither a success nor a redirect fails the fetch.
pub fn resolve_identity(url: &str, status: u16, headers: &reqwest::header::HeaderMap) -> (r: Result<
    Identity,
    InstallError,
>)
    ensures
        identity_result_view(r) == resolution(url@, status, header_fields(*headers)),
{
    let redirect = status_is_redirect(status);
    let id_key = if redirect {
        "x-linked-etag"
    } else {
        "etag"
    };
    let size_key = if redirect {
        "x-linked-size"
    } else {
        "content-length"
    };
    assert(id_key@ == identity_field(status));
    assert(size_key@ == size_field(status));
    let raw = match header_bytes(headers, id_key) {
        Some(b) => b,
        None => {
            return Err(InstallError::MissingIdentity { url: url.to_owned() });
        },
    };
    if !is_visible_text(&raw) {
        return Err(InstallError::MissingIdentity { url: url.to_owned() });
    }
    let trimmed = trim_quotes(&raw);
    if !is_usable_id(&trimmed) {
        return Err(InstallError::MissingIdentity { url: url.to_owned() });
    }
    if !(status_is_success(status) || status_is_redirect(status)) {
        return Err(InstallError::FetchFailed { url: url.to_owned(), status });
    }
    proof {
        lemma_strip_keeps_visible(raw@);
    }
    let size = match header_bytes(headers, size_key) {
        Some(b) => parse_size(&b),
        None => None,
    };
    let id = ascii_text(trimmed);
    Ok(Identity { id, size })
}

proof fn lemma_strip_keeps_visible(s: Seq<u8>)
    requires
        visible_text(s),
    ensures
        visible_text(strip_quotes(s)),
        forall|i: int| 0 <= i < strip_quotes(s).len() ==> strip_quotes(s)[i] < 128,
    decreases s.len(),
{
    if s.len() > 0 && is_quote(s[0]) {
        lemma_strip_keeps_visible(s.drop_first());
    } else if s.len() > 0 && is_quote(s.last()) {
        lemma_strip_keeps_visible(s.drop_last());
    }
}

} // verus!
