//! `wasi:http/types.fields`: the header and trailer fields of requests and
//! responses, kept in an [`http::HeaderMap`].
use vstd::prelude::*;

use crate::engine::wasi::http::HeaderError;

verus! {

#[verifier::external_type_specification]
#[verifier::external_body]
#[verifier::reject_recursive_types(T)]
pub struct ExHeaderMap<T>(http::HeaderMap<T>);

#[verifier::external_type_specification]
#[verifier::external_body]
pub struct ExHeaderValue(http::HeaderValue);

/// What a header map holds: for each (lower-case) field name, its values in
/// the order in which they were appended.
pub uninterp spec fn header_fields(m: http::HeaderMap) -> Map<Seq<char>, Seq<Seq<u8>>>;

/// The most distinct names a header map takes without having to grow past
/// its largest table.
pub const MAX_FIELD_NAMES: usize = 6553;

/// The characters that a field name may hold, as RFC 9110 defines a token.
pub open spec fn is_token_char(c: char) -> bool {
    ||| 'a' <= c <= 'z'
    ||| 'A' <= c <= 'Z'
    ||| '0' <= c <= '9'
    ||| c == '!' || c == '#' || c == '$' || c == '%' || c == '&' || c == '\''
    ||| c == '*' || c == '+' || c == '-' || c == '.' || c == '^' || c == '_'
    ||| c == '`' || c == '|' || c == '~'
}

/// Whether `s` is a valid field name.
pub open spec fn is_field_name(s: Seq<char>) -> bool {
    &&& 1 <= s.len() <= 65535
    &&& forall|i: int| 0 <= i < s.len() ==> is_token_char(#[trigger] s[i])
}

/// `c` in lower case, for an ASCII letter.
pub open spec fn lower_char(c: char) -> char {
    if 'A' <= c <= 'Z' {
        ((c as u32) + 32) as char
    } else {
        c
    }
}

/// `s` with its ASCII letters in lower case.
pub open spec fn ascii_lower(s: Seq<char>) -> Seq<char> {
    s.map_values(|c: char| lower_char(c))
}

/// Whether `s` is a field name in the form in which a header map keeps it.
pub open spec fn is_canonical_name(s: Seq<char>) -> bool {
    is_field_name(s) && ascii_lower(s) == s
}

/// Whether `v` is a valid field value: visible characters, spaces and tabs.
pub open spec fn is_field_value(v: Seq<u8>) -> bool {
    forall|i: int| 0 <= i < v.len() ==> ((#[trigger] v[i] >= 32 && v[i] != 127) || v[i] == 9)
}

/// The names of the fields that a guest may not set.
pub open spec fn is_forbidden_name(n: Seq<char>) -> bool {
    ||| n == "connection"@
    ||| n == "keep-alive"@
    ||| n == "proxy-authenticate"@
    ||| n == "proxy-authorization"@
    ||| n == "proxy-connection"@
    ||| n == "te"@
    ||| n == "transfer-encoding"@
    ||| n == "upgrade"@
    ||| n == "host"@
    ||| n == "http2-settings"@
}

/// The value of a string of decimal digits.
pub open spec fn digits_value(s: Seq<u8>) -> int
    decreases s.len(),
{
    if s.len() == 0 {
        0
    } else {
        digits_value(s.drop_last()) * 10 + (s.last() - 48)
    }
}

/// Whether every byte of `s` is a decimal digit.
pub open spec fn all_digits(s: Seq<u8>) -> bool {
    forall|i: int| 0 <= i < s.len() ==> 48 <= #[trigger] s[i] <= 57
}

/// `s` without one leading `+`.
pub open spec fn unsigned_digits(s: Seq<u8>) -> Seq<u8> {
    if s.len() > 0 && s[0] == 43 {
        s.drop_first()
    } else {
        s
    }
}

/// The number that `s` spells in decimal, with an optional leading `+`, if
/// it does and the number fits in 64 bits.
pub open spec fn decimal_u64(s: Seq<u8>) -> Option<u64> {
    let d = unsigned_digits(s);
    if d.len() > 0 && all_digits(d) && digits_value(d) <= u64::MAX {
        Some(digits_value(d) as u64)
    } else {
        None
    }
}

/// The shortest decimal spelling of `n`.
pub open spec fn decimal_digits(n: nat) -> Seq<u8>
    decreases n,
{
    if n < 10 {
        seq![(48 + n) as u8]
    } else {
        decimal_digits(n / 10).push((48 + n % 10) as u8)
    }
}

/// The value that a header map keeps for `value` under the canonical name
/// `name`, or why `value` is refused: a `content-length` is kept as the
/// number it spells.
pub open spec fn field_value_for(name: Seq<char>, value: Seq<u8>) -> Result<Seq<u8>, HeaderError> {
    if name == "content-length"@ {
        match decimal_u64(value) {
            Some(n) => Ok(decimal_digits(n as nat)),
            None => Err(HeaderError::InvalidSyntax),
        }
    } else if is_field_value(value) {
        Ok(value)
    } else {
        Err(HeaderError::InvalidSyntax)
    }
}

/// The values of the byte vectors `vs`.
pub open spec fn byte_views(vs: Seq<Vec<u8>>) -> Seq<Seq<u8>> {
    vs.map_values(|v: Vec<u8>| v@)
}

/// Checks a field name and puts it in the form in which a header map keeps it.
///
/// Calls `<http::HeaderName as FromStr>::from_str`: by the crate's source it
/// accepts exactly the names of 1 to 65535 token characters, and keeps them
/// with ASCII letters in lower case.
#[verifier::external_body]
fn parse_header_name(name: &str) -> (r: Option<String>)
    ensures
        r is Some <==> is_field_name(name@),
        r matches Some(n) ==> n@ == ascii_lower(name@),
{
    match name.parse::<http::HeaderName>() {
        Ok(n) => Some(n.as_str().to_string()),
        Err(_) => None,
    }
}

/// Checks a field value.
///
/// Calls `http::HeaderValue::from_bytes`: by the crate's source it accepts
/// exactly the bytes that are visible characters, spaces or tabs.
#[verifier::external_body]
fn is_valid_header_value(value: &[u8]) -> (r: bool)
    ensures
        r == is_field_value(value@),
{
    http::HeaderValue::from_bytes(value).is_ok()
}

/// An empty header map (`http::HeaderMap::new`).
#[verifier::external_body]
fn header_map_new() -> (r: http::HeaderMap)
    ensures
        header_fields(r).dom() == Set::<Seq<char>>::empty(),
{
    http::HeaderMap::new()
}

/// Appends `value` to the values of `name` (`http::HeaderMap::try_append`).
///
/// By the crate's source the append is refused (`MaxSizeReached`) only
/// where the map's table would have to grow past its largest size: with
/// more than [`MAX_FIELD_NAMES`] names in it beforehand, as five times the
/// number of names must reach that size, under the worst hashing, before it
/// is refused. A refused append leaves the names and values as they were.
#[verifier::external_body]
fn header_map_append(m: &mut http::HeaderMap, name: &str, value: &[u8]) -> (r: bool)
    requires
        is_canonical_name(name@),
        is_field_value(value@),
    ensures
        r ==> header_fields(*final(m)) == header_fields(*old(m)).insert(
            name@,
            if header_fields(*old(m)).dom().contains(name@) {
                header_fields(*old(m))[name@].push(value@)
            } else {
                seq![value@]
            },
        ),
        !r ==> header_fields(*final(m)) == header_fields(*old(m)) && header_fields(
            *old(m),
        ).dom().len() > MAX_FIELD_NAMES,
{
    match m.try_append(
        http::HeaderName::from_bytes(name.as_bytes()).unwrap(),
        http::HeaderValue::from_bytes(value).unwrap(),
    ) {
        Ok(_) => true,
        Err(_) => false,
    }
}

/// The number of distinct names in the map (`http::HeaderMap::keys_len`).
#[verifier::external_body]
fn header_map_keys_len(m: &http::HeaderMap) -> (r: usize)
    ensures
        r == header_fields(*m).dom().len(),
{
    m.keys_len()
}

/// Removes every value of `name` (`http::HeaderMap::remove`).
#[verifier::external_body]
fn header_map_remove(m: &mut http::HeaderMap, name: &str)
    requires
        is_canonical_name(name@),
    ensures
        header_fields(*final(m)) == header_fields(*old(m)).remove(name@),
{
    m.remove(name);
}

/// The values of the field `name`, looked up without regard to case
/// (`http::HeaderMap::get_all`); none for a name that is not valid.
#[verifier::external_body]
fn header_map_get_all(m: &http::HeaderMap, name: &str) -> (r: Vec<Vec<u8>>)
    ensures
        byte_views(r@) == (if is_field_name(name@) && header_fields(*m).dom().contains(
            ascii_lower(name@),
        ) {
            header_fields(*m)[ascii_lower(name@)]
        } else {
            Seq::<Seq<u8>>::empty()
        }),
{
    m.get_all(name).iter().map(|v| v.as_bytes().to_vec()).collect()
}

/// Whether the field `name` has a value, looked up without regard to case
/// (`http::HeaderMap::contains_key`).
#[verifier::external_body]
fn header_map_contains(m: &http::HeaderMap, name: &str) -> (r: bool)
    ensures
        r == (is_field_name(name@) && header_fields(*m).dom().contains(ascii_lower(name@))),
{
    m.contains_key(name)
}

/// Every name and value of the map (`http::HeaderMap::iter`). For each name
/// its values come in their order; the order across names is the map's
/// own, which this contract leaves unsaid.
#[verifier::external_body]
fn header_map_entries(m: &http::HeaderMap) -> (r: Vec<(String, Vec<u8>)>)
    ensures
        forall|i: int| 0 <= i < r.len() ==> header_fields(*m).dom().contains(#[trigger] r@[i].0@),
        forall|n: Seq<char>|
            #[trigger] header_fields(*m).dom().contains(n) ==> r@.filter(
                |e: (String, Vec<u8>)| e.0@ == n,
            ).map_values(|e: (String, Vec<u8>)| e.1@) == header_fields(*m)[n],
{
    m.iter().map(|(n, v)| (n.as_str().to_string(), v.as_bytes().to_vec())).collect()
}

/// A copy of the map (`<http::HeaderMap as Clone>::clone`).
#[verifier::external_body]
fn header_map_clone(m: &http::HeaderMap) -> (r: http::HeaderMap)
    ensures
        header_fields(r) == header_fields(*m),
{
    m.clone()
}


/// The values of the field `name` in `contents`, looked up without regard
/// to case; none for a name that is not valid.
pub open spec fn field_values(contents: Map<Seq<char>, Seq<Seq<u8>>>, name: Seq<char>) -> Seq<
    Seq<u8>,
> {
    if is_field_name(name) && contents.dom().contains(ascii_lower(name)) {
        contents[ascii_lower(name)]
    } else {
        Seq::empty()
    }
}

/// `m` with `v` appended to the values of `n`.
pub open spec fn appended(m: Map<Seq<char>, Seq<Seq<u8>>>, n: Seq<char>, v: Seq<u8>) -> Map<
    Seq<char>,
    Seq<Seq<u8>>,
> {
    m.insert(
        n,
        if m.dom().contains(n) {
            m[n].push(v)
        } else {
            seq![v]
        },
    )
}

/// The values that `values` are kept as under the canonical name `n`, or
/// the error of the first one that is refused.
pub open spec fn values_for(n: Seq<char>, values: Seq<Seq<u8>>) -> Result<Seq<Seq<u8>>, HeaderError>
    decreases values.len(),
{
    if values.len() == 0 {
        Ok(Seq::empty())
    } else {
        match values_for(n, values.drop_last()) {
            Err(e) => Err(e),
            Ok(kept) => match field_value_for(n, values.last()) {
                Err(e) => Err(e),
                Ok(v) => Ok(kept.push(v)),
            },
        }
    }
}

/// Where a name of a guest's falls short: not a name, or a forbidden one.
pub open spec fn name_error(name: Seq<char>) -> Option<HeaderError> {
    if !is_field_name(name) {
        Some(HeaderError::InvalidSyntax)
    } else if is_forbidden_name(ascii_lower(name)) {
        Some(HeaderError::Forbidden)
    } else {
        None
    }
}

/// The fields that a list of names and values makes, or the error of the
/// first entry that is refused.
pub open spec fn fields_from_list(entries: Seq<(String, Vec<u8>)>) -> Result<
    Map<Seq<char>, Seq<Seq<u8>>>,
    HeaderError,
>
    decreases entries.len(),
{
    if entries.len() == 0 {
        Ok(Map::empty())
    } else {
        match fields_from_list(entries.drop_last()) {
            Err(e) => Err(e),
            Ok(m) => {
                let n = entries.last().0@;
                match name_error(n) {
                    Some(e) => Err(e),
                    None => match field_value_for(ascii_lower(n), entries.last().1@) {
                        Err(e) => Err(e),
                        Ok(v) => Ok(appended(m, ascii_lower(n), v)),
                    },
                }
            },
        }
    }
}

/// The distinct names, in lower case, of a list of entries.
pub open spec fn entry_names(entries: Seq<(String, Vec<u8>)>) -> Set<Seq<char>> {
    entries.map_values(|e: (String, Vec<u8>)| ascii_lower(e.0@)).to_set()
}

proof fn lemma_digits_prefix(s: Seq<u8>, j: int)
    requires
        all_digits(s),
        0 <= j <= s.len(),
    ensures
        0 <= digits_value(s.subrange(0, j)) <= digits_value(s),
    decreases s.len(),
{
    if j < s.len() {
        assert(s.drop_last().subrange(0, j) =~= s.subrange(0, j));
        lemma_digits_prefix(s.drop_last(), j);
    } else {
        assert(s.subrange(0, j) =~= s);
    }
    if s.len() > 0 {
        lemma_digits_prefix(s.drop_last(), s.len() - 1);
        assert(s.drop_last().subrange(0, s.len() - 1) =~= s.drop_last());
    }
}

/// The number that `s` spells in decimal, with an optional leading `+`, if
/// it does and the number fits in 64 bits (`<u64 as FromStr>::from_str`).
pub fn parse_u64(s: &[u8]) -> (r: Option<u64>)
    ensures
        r == decimal_u64(s@),
{
    let start: usize = if s.len() > 0 && s[0] == 43 {
        1
    } else {
        0
    };
    let ghost d = unsigned_digits(s@);
    proof {
        assert(d =~= s@.subrange(start as int, s@.len() as int));
    }
    if start == s.len() {
        return None;
    }
    let mut acc: u64 = 0;
    let mut i: usize = start;
    while i < s.len()
        invariant
            start <= i <= s.len(),
            d == s@.subrange(start as int, s@.len() as int),
            d == unsigned_digits(s@),
            all_digits(d.subrange(0, i - start)),
            acc == digits_value(d.subrange(0, i - start)),
        decreases s.len() - i,
    {
        let b = s[i];
        proof {
            assert(d.subrange(0, i - start + 1).drop_last() =~= d.subrange(0, i - start));
            assert(d[i - start] == b);
        }
        if b < 48 || b > 57 {
            proof {
                assert(!all_digits(d) && d[i - start] == b);
            }
            return None;
        }
        let digit = (b - 48) as u64;
        proof {
            assert(d.subrange(0, i - start + 1).last() == b);
            assert(digits_value(d.subrange(0, i - start + 1)) == acc * 10 + digit);
        }
        match acc.checked_mul(10) {
            None => {
                proof {
                    if all_digits(d) {
                        lemma_digits_prefix(d, i - start + 1);
                    }
                }
                return None;
            },
            Some(m) => match m.checked_add(digit) {
                None => {
                    proof {
                        if all_digits(d) {
                            lemma_digits_prefix(d, i - start + 1);
                        }
                    }
                    return None;
                },
                Some(next) => {
                    acc = next;
                },
            },
        }
        i += 1;
    }
    proof {
        assert(d.subrange(0, i - start) =~= d);
    }
    Some(acc)
}

/// Appends the shortest decimal spelling of `n` to `out`.
fn push_decimal(n: u64, out: &mut Vec<u8>)
    ensures
        final(out)@ == old(out)@ + decimal_digits(n as nat),
    decreases n,
{
    if n >= 10 {
        push_decimal(n / 10, out);
    }
    out.push((48 + n % 10) as u8);
}

/// The value kept for `value` under the canonical name `name`, or why it is
/// refused: a `content-length` must spell a number, which is kept as it
/// spells it shortest; any other value must be a valid field value.
pub fn parse_header_value(name: &String, value: Vec<u8>) -> (r: Result<Vec<u8>, HeaderError>)
    ensures
        r matches Ok(v) ==> field_value_for(name@, value@) == Ok::<Seq<u8>, HeaderError>(v@),
        r matches Err(e) ==> field_value_for(name@, value@) == Err::<Seq<u8>, HeaderError>(e),
{
    if *name == String::from_str("content-length") {
        match parse_u64(value.as_slice()) {
            Some(n) => {
                let mut out: Vec<u8> = Vec::new();
                push_decimal(n, &mut out);
                proof {
                    assert(out@ =~= decimal_digits(n as nat));
                }
                Ok(out)
            },
            None => Err(HeaderError::InvalidSyntax),
        }
    } else if is_valid_header_value(value.as_slice()) {
        Ok(value)
    } else {
        Err(HeaderError::InvalidSyntax)
    }
}

/// Whether a guest may not set the field `name` (given in lower case).
pub fn is_forbidden_header(name: &String) -> (r: bool)
    ensures
        r == is_forbidden_name(name@),
{
    *name == String::from_str("connection") || *name == String::from_str("keep-alive")
        || *name == String::from_str("proxy-authenticate") || *name == String::from_str(
        "proxy-authorization",
    ) || *name == String::from_str("proxy-connection") || *name == String::from_str("te")
        || *name == String::from_str("transfer-encoding") || *name == String::from_str("upgrade")
        || *name == String::from_str("host") || *name == String::from_str("http2-settings")
}


/// The concrete type behind a `wasi:http/types.fields` resource: a header
/// map, and whether the guest may change it (the headers of a request or
/// response it holds may not be).
pub struct Fields {
    map: http::HeaderMap,
    mutable: bool,
}

impl Fields {
    #[verifier::type_invariant]
    spec fn inv(self) -> bool {
        header_fields(self.map).dom().finite()
    }

    /// The names and values held, names in lower case.
    pub closed spec fn contents(&self) -> Map<Seq<char>, Seq<Seq<u8>>> {
        header_fields(self.map)
    }

    /// Whether the guest may change these fields.
    pub closed spec fn is_mutable(&self) -> bool {
        self.mutable
    }

    /// `fields.new`: no fields, which the guest may change.
    pub fn new() -> (r: Self)
        ensures
            r.contents().dom() == Set::<Seq<char>>::empty(),
            r.is_mutable(),
    {
        let map = header_map_new();
        proof {
            assert(header_fields(map).dom() =~= Set::<Seq<char>>::empty());
        }
        Fields { map, mutable: true }
    }

    /// `fields.from-list`: the fields of `entries`, each value appended to
    /// its name's in order; or the error of the first entry whose name is
    /// not valid, is forbidden, or whose value is refused.
    pub fn from_list(entries: Vec<(String, Vec<u8>)>) -> (r: Result<Self, HeaderError>)
        requires
            entry_names(entries@).len() <= MAX_FIELD_NAMES,
        ensures
            r matches Ok(f) ==> fields_from_list(entries@) == Ok::<_, HeaderError>(f.contents())
                && f.is_mutable(),
            r matches Err(e) ==> fields_from_list(entries@) == Err::<
                Map<Seq<char>, Seq<Seq<u8>>>,
                HeaderError,
            >(e),
    {
        let ghost all = entries@;
        let ghost names = entry_names(all);
        proof {
            vstd::seq_lib::seq_to_set_is_finite(
                all.map_values(|e: (String, Vec<u8>)| ascii_lower(e.0@)),
            );
        }
        let mut map = header_map_new();
        proof {
            assert(header_fields(map) =~= Map::empty());
            assert(all.subrange(0, 0) =~= Seq::<(String, Vec<u8>)>::empty());
        }
        let mut rest = reversed_entries(entries);
        let mut i: usize = 0;
        while rest.len() > 0
            invariant
                all == entries@,
                all.len() <= usize::MAX,
                names == entry_names(all),
                names.finite(),
                names.len() <= MAX_FIELD_NAMES,
                i + rest.len() == all.len(),
                forall|j: int| 0 <= j < rest.len() ==> #[trigger] rest@[j] == all[all.len() - 1 - j],
                fields_from_list(all.subrange(0, i as int)) == Ok::<_, HeaderError>(
                    header_fields(map),
                ),
                header_fields(map).dom().subset_of(names),
                header_fields(map).dom().finite(),
            decreases rest.len(),
        {
            let (name, value) = rest.pop().unwrap();
            proof {
                assert(all.subrange(0, i + 1).drop_last() =~= all.subrange(0, i as int));
                assert(all.subrange(0, i + 1).last() == all[i as int]);
                vstd::set_lib::lemma_len_subset(header_fields(map).dom(), names);
            }
            let canonical = match parse_header_name(name.as_str()) {
                Some(n) => n,
                None => {
                    proof {
                        lemma_list_error_persists(all, i + 1);
                    }
                    return Err(HeaderError::InvalidSyntax);
                },
            };
            if is_forbidden_header(&canonical) {
                proof {
                    lemma_list_error_persists(all, i + 1);
                }
                return Err(HeaderError::Forbidden);
            }
            let value = match parse_header_value(&canonical, value) {
                Ok(v) => v,
                Err(e) => {
                    proof {
                        lemma_list_error_persists(all, i + 1);
                    }
                    return Err(e);
                },
            };
            proof {
                assert(all.map_values(|e: (String, Vec<u8>)| ascii_lower(e.0@))[i as int]
                    == canonical@);
            }
            proof {
                lemma_lower_is_canonical(name@);
                lemma_kept_value_is_valid(canonical@, all[i as int].1@);
            }
            let appended = header_map_append(&mut map, canonical.as_str(), value.as_slice());
            assert(appended);
            i += 1;
        }
        proof {
            assert(all.subrange(0, all.len() as int) =~= all);
        }
        Ok(Fields { map, mutable: true })
    }

    /// `fields.get`: the values of `name`, looked up without regard to
    /// case; none for a name that is not valid.
    pub fn get(&self, name: &str) -> (r: Vec<Vec<u8>>)
        ensures
            byte_views(r@) == field_values(self.contents(), name@),
    {
        header_map_get_all(&self.map, name)
    }

    /// `fields.has`: whether `name` has a value.
    pub fn has(&self, name: &str) -> (r: bool)
        ensures
            r == (is_field_name(name@) && self.contents().dom().contains(ascii_lower(name@))),
    {
        header_map_contains(&self.map, name)
    }

    /// `fields.set`: replaces the values of `name` by `values`. A name that
    /// is not valid or is forbidden, a refused value (the first), and fields
    /// the guest may not change are errors, checked in that order, and
    /// leave the fields as they were.
    pub fn set(&mut self, name: &str, values: Vec<Vec<u8>>) -> (r: Result<(), HeaderError>)
        requires
            old(self).contents().dom().len() < MAX_FIELD_NAMES,
        ensures
            final(self).is_mutable() == old(self).is_mutable(),
            r is Err ==> final(self).contents() == old(self).contents(),
            r == set_outcome(name@, byte_views(values@), old(self).is_mutable()),
            r is Ok ==> final(self).contents() == contents_after_set(
                old(self).contents(),
                name@,
                byte_views(values@),
            ),
    {
        match self.try_set(name, values) {
            Some(r) => r,
            None => {
                assert(false);
                Err(HeaderError::Immutable)
            },
        }
    }

    /// [`Fields::set`] on fields of any size. `None` where the header map
    /// refuses to take another value because its table cannot grow any
    /// more, which can only be with [`MAX_FIELD_NAMES`] names or more; the
    /// fields are then left as far as they got.
    pub fn try_set(&mut self, name: &str, values: Vec<Vec<u8>>) -> (r: Option<
        Result<(), HeaderError>,
    >)
        ensures
            final(self).is_mutable() == old(self).is_mutable(),
            r is None ==> old(self).contents().dom().len() >= MAX_FIELD_NAMES,
            r matches Some(x) ==> x == set_outcome(name@, byte_views(values@), old(self).is_mutable())
                && (x is Err ==> final(self).contents() == old(self).contents())
                && (x is Ok ==> final(self).contents() == contents_after_set(
                old(self).contents(),
                name@,
                byte_views(values@),
            )),
    {
        let canonical = match parse_header_name(name) {
            Some(n) => n,
            None => return Some(Err(HeaderError::InvalidSyntax)),
        };
        if is_forbidden_header(&canonical) {
            return Some(Err(HeaderError::Forbidden));
        }
        let ghost n = canonical@;
        let ghost all = byte_views(values@);
        let mut kept: Vec<Vec<u8>> = Vec::new();
        let mut rest = reversed_values(values);
        proof {
            assert(all.subrange(0, 0) =~= Seq::<Seq<u8>>::empty());
            assert(byte_views(kept@) =~= Seq::<Seq<u8>>::empty());
        }
        let mut i: usize = 0;
        while rest.len() > 0
            invariant
                n == canonical@,
                n == ascii_lower(name@),
                name_error(name@) is None,
                all == byte_views(values@),
                forall|k: int| 0 <= k < kept.len() ==> is_field_value(#[trigger] kept@[k]@),
                i + rest.len() == all.len(),
                all.len() <= usize::MAX,
                forall|j: int| 0 <= j < rest.len() ==> #[trigger] rest@[j]@ == all[all.len() - 1 - j],
                values_for(n, all.subrange(0, i as int)) == Ok::<_, HeaderError>(byte_views(kept@)),
            decreases rest.len(),
        {
            let v = rest.pop().unwrap();
            proof {
                assert(all.subrange(0, i + 1).drop_last() =~= all.subrange(0, i as int));
                assert(all.subrange(0, i + 1).last() == all[i as int]);
            }
            match parse_header_value(&canonical, v) {
                Ok(pv) => {
                    let ghost before = kept@;
                    proof {
                        lemma_kept_value_is_valid(n, all[i as int]);
                    }
                    kept.push(pv);
                    proof {
                        assert(byte_views(kept@) =~= byte_views(before).push(pv@));
                    }
                },
                Err(e) => {
                    proof {
                        lemma_values_error_persists(n, all, i + 1);
                    }
                    return Some(Err(e));
                },
            }
            i += 1;
        }
        proof {
            assert(all.subrange(0, all.len() as int) =~= all);
        }
        if !self.mutable {
            return Some(Err(HeaderError::Immutable));
        }
        proof {
            lemma_lower_is_canonical(name@);
        }
        proof {
            use_type_invariant(&*self);
        }
        let mut map = header_map_new();
        std::mem::swap(&mut map, &mut self.map);
        header_map_remove(&mut map, canonical.as_str());
        let ghost base = header_fields(map);
        proof {
            vstd::set_lib::lemma_len_subset(base.dom(), old(self).contents().dom());
        }
        let mut complete = true;
        let mut j: usize = 0;
        while complete && j < kept.len()
            invariant
                j <= kept.len(),
                !complete ==> old(self).contents().dom().len() >= MAX_FIELD_NAMES,
                is_canonical_name(n),
                n == canonical@,
                base == old(self).contents().remove(n),
                base.dom().finite(),
                base.dom().len() <= old(self).contents().dom().len(),
                old(self).contents().dom().finite(),
                header_fields(map).dom().finite(),
                forall|k: int| 0 <= k < kept.len() ==> is_field_value(#[trigger] kept@[k]@),
                complete && j == 0 ==> header_fields(map) == base,
                complete && j > 0 ==> header_fields(map) == base.insert(
                    n,
                    byte_views(kept@).subrange(0, j as int),
                ),
            decreases kept.len() - j + if complete {
                1int
            } else {
                0int
            },
        {
            proof {
                if j > 0 {
                    assert(header_fields(map).dom() =~= base.dom().insert(n));
                }
            }
            if header_map_append(&mut map, canonical.as_str(), kept[j].as_slice()) {
                proof {
                    assert(byte_views(kept@).subrange(0, j + 1) =~= if j == 0 {
                        seq![kept@[0]@]
                    } else {
                        byte_views(kept@).subrange(0, j as int).push(kept@[j as int]@)
                    });
                    assert(header_fields(map) =~= base.insert(
                        n,
                        byte_views(kept@).subrange(0, j + 1),
                    ));
                }
                j += 1;
            } else {
                complete = false;
            }
        }
        if !complete {
            self.map = map;
            return None;
        }
        proof {
            assert(byte_views(kept@).subrange(0, kept.len() as int) =~= byte_views(kept@));
            assert(header_fields(map).dom() =~= if kept.len() == 0 {
                base.dom()
            } else {
                base.dom().insert(n)
            });
        }
        self.map = map;
        Some(Ok(()))
    }

    /// `fields.delete`: removes every value of `name`. A name that is not
    /// valid or is forbidden, and fields the guest may not change, are
    /// errors, checked in that order.
    pub fn delete(&mut self, name: &str) -> (r: Result<(), HeaderError>)
        ensures
            final(self).is_mutable() == old(self).is_mutable(),
            r == (match name_error(name@) {
                Some(e) => Err(e),
                None => if old(self).is_mutable() {
                    Ok(())
                } else {
                    Err(HeaderError::Immutable)
                },
            }),
            r is Err ==> final(self).contents() == old(self).contents(),
            r is Ok ==> final(self).contents() == old(self).contents().remove(ascii_lower(name@)),
    {
        let canonical = match parse_header_name(name) {
            Some(n) => n,
            None => return Err(HeaderError::InvalidSyntax),
        };
        if is_forbidden_header(&canonical) {
            return Err(HeaderError::Forbidden);
        }
        if !self.mutable {
            return Err(HeaderError::Immutable);
        }
        proof {
            lemma_lower_is_canonical(name@);
            use_type_invariant(&*self);
        }
        let mut map = header_map_new();
        std::mem::swap(&mut map, &mut self.map);
        header_map_remove(&mut map, canonical.as_str());
        self.map = map;
        Ok(())
    }

    /// Removes every value of `name`, looked up without regard to case, and
    /// gives the first of them (as `http::HeaderMap::remove` does); a name
    /// that is not valid is in no map. The host uses this on headers it
    /// owns, so neither forbidden names nor mutability are checked.
    pub fn take(&mut self, name: &str) -> (r: Option<Vec<u8>>)
        ensures
            final(self).is_mutable() == old(self).is_mutable(),
            final(self).contents() == if is_field_name(name@) {
                old(self).contents().remove(ascii_lower(name@))
            } else {
                old(self).contents()
            },
            field_values(old(self).contents(), name@).len() == 0 ==> r is None,
            field_values(old(self).contents(), name@).len() > 0 ==> (r matches Some(v) && v@
                == field_values(old(self).contents(), name@)[0]),
    {
        let mut values = header_map_get_all(&self.map, name);
        let first = if values.len() > 0 {
            Some(values.remove(0))
        } else {
            None
        };
        let canonical = match parse_header_name(name) {
            Some(n) => n,
            None => return first,
        };
        proof {
            lemma_lower_is_canonical(name@);
            use_type_invariant(&*self);
        }
        let mut map = header_map_new();
        std::mem::swap(&mut map, &mut self.map);
        header_map_remove(&mut map, canonical.as_str());
        self.map = map;
        first
    }

    /// `fields.append`: appends `value` to the values of `name`. A name
    /// that is not valid or is forbidden, a refused value, and fields the
    /// guest may not change are errors, checked in that order.
    pub fn append(&mut self, name: &str, value: Vec<u8>) -> (r: Result<(), HeaderError>)
        requires
            old(self).contents().dom().len() <= MAX_FIELD_NAMES,
        ensures
            final(self).is_mutable() == old(self).is_mutable(),
            r == append_outcome(name@, value@, old(self).is_mutable()),
            r is Err ==> final(self).contents() == old(self).contents(),
            r is Ok ==> final(self).contents() == appended(
                old(self).contents(),
                ascii_lower(name@),
                field_value_for(ascii_lower(name@), value@)->Ok_0,
            ),
    {
        match self.try_append(name, value) {
            Some(r) => r,
            None => {
                assert(false);
                Err(HeaderError::Immutable)
            },
        }
    }

    /// [`Fields::append`] on fields of any size. `None`, and the fields as
    /// they were, where the header map refuses to take another value
    /// because its table cannot grow any more, which can only be with more
    /// than [`MAX_FIELD_NAMES`] names.
    pub fn try_append(&mut self, name: &str, value: Vec<u8>) -> (r: Option<
        Result<(), HeaderError>,
    >)
        ensures
            final(self).is_mutable() == old(self).is_mutable(),
            r is None ==> old(self).contents().dom().len() > MAX_FIELD_NAMES && final(self).contents()
                == old(self).contents(),
            r matches Some(x) ==> x == append_outcome(name@, value@, old(self).is_mutable())
                && (x is Err ==> final(self).contents() == old(self).contents())
                && (x is Ok ==> final(self).contents() == appended(
                old(self).contents(),
                ascii_lower(name@),
                field_value_for(ascii_lower(name@), value@)->Ok_0,
            )),
    {
        let canonical = match parse_header_name(name) {
            Some(n) => n,
            None => return Some(Err(HeaderError::InvalidSyntax)),
        };
        if is_forbidden_header(&canonical) {
            return Some(Err(HeaderError::Forbidden));
        }
        let ghost raw = value@;
        let value = match parse_header_value(&canonical, value) {
            Ok(v) => v,
            Err(e) => return Some(Err(e)),
        };
        if !self.mutable {
            return Some(Err(HeaderError::Immutable));
        }
        proof {
            lemma_lower_is_canonical(name@);
            lemma_kept_value_is_valid(canonical@, raw);
            use_type_invariant(&*self);
        }
        let mut map = header_map_new();
        std::mem::swap(&mut map, &mut self.map);
        if !header_map_append(&mut map, canonical.as_str(), value.as_slice()) {
            self.map = map;
            return None;
        }
        proof {
            assert(header_fields(map).dom() =~= old(self).contents().dom().insert(canonical@));
        }
        self.map = map;
        Some(Ok(()))
    }

    /// Appends `value` to the values of `name` on the host's side, as the
    /// header of a request that came in: name and value must be valid, but
    /// the names a guest may not set and immutability do not apply. `None`,
    /// and the fields as they were, where the header map cannot grow any
    /// more, which can only be with more than [`MAX_FIELD_NAMES`] names.
    pub fn try_append_received(&mut self, name: &str, value: Vec<u8>) -> (r: Option<
        Result<(), HeaderError>,
    >)
        ensures
            final(self).is_mutable() == old(self).is_mutable(),
            r is None ==> old(self).contents().dom().len() > MAX_FIELD_NAMES && final(self).contents()
                == old(self).contents(),
            r matches Some(x) ==> x == received_append_outcome(name@, value@)
                && (x is Err ==> final(self).contents() == old(self).contents())
                && (x is Ok ==> final(self).contents() == appended(
                old(self).contents(),
                ascii_lower(name@),
                field_value_for(ascii_lower(name@), value@)->Ok_0,
            )),
    {
        let canonical = match parse_header_name(name) {
            Some(n) => n,
            None => return Some(Err(HeaderError::InvalidSyntax)),
        };
        let ghost raw = value@;
        let value = match parse_header_value(&canonical, value) {
            Ok(v) => v,
            Err(e) => return Some(Err(e)),
        };
        proof {
            lemma_lower_is_canonical(name@);
            lemma_kept_value_is_valid(canonical@, raw);
            use_type_invariant(&*self);
        }
        let mut map = header_map_new();
        std::mem::swap(&mut map, &mut self.map);
        if !header_map_append(&mut map, canonical.as_str(), value.as_slice()) {
            self.map = map;
            return None;
        }
        proof {
            assert(header_fields(map).dom() =~= old(self).contents().dom().insert(canonical@));
        }
        self.map = map;
        Some(Ok(()))
    }

    /// The number of distinct names that have values.
    pub fn name_count(&self) -> (r: usize)
        ensures
            r == self.contents().dom().len(),
    {
        header_map_keys_len(&self.map)
    }

    /// `fields.entries`: every name and value. For each name its values
    /// come in their order; the order across names is the map's own.
    pub fn entries(&self) -> (r: Vec<(String, Vec<u8>)>)
        ensures
            forall|i: int| 0 <= i < r.len() ==> self.contents().dom().contains(#[trigger] r@[i].0@),
            forall|n: Seq<char>|
                #[trigger] self.contents().dom().contains(n) ==> r@.filter(
                    |e: (String, Vec<u8>)| e.0@ == n,
                ).map_values(|e: (String, Vec<u8>)| e.1@) == self.contents()[n],
    {
        header_map_entries(&self.map)
    }

    /// The `Content-Length` of these fields: the number that its first value
    /// spells, if it has one; `Err(())` where that value is not a number.
    pub fn content_length(&self) -> (r: Result<Option<u64>, ()>)
        ensures
            field_values(self.contents(), "content-length"@).len() == 0 ==> r == Ok::<
                Option<u64>,
                (),
            >(None),
            field_values(self.contents(), "content-length"@).len() > 0 ==> r == match decimal_u64(
                field_values(self.contents(), "content-length"@)[0],
            ) {
                Some(n) => Ok::<Option<u64>, ()>(Some(n)),
                None => Err(()),
            },
    {
        let values = self.get("content-length");
        if values.len() == 0 {
            return Ok(None);
        }
        proof {
            assert(byte_views(values@)[0] == values@[0]@);
        }
        match parse_u64(values[0].as_slice()) {
            Some(n) => Ok(Some(n)),
            None => Err(()),
        }
    }

    /// `fields.clone`: a copy of these fields, which the guest may change.
    pub fn clone_fields(&self) -> (r: Self)
        ensures
            r.contents() == self.contents(),
            r.is_mutable(),
    {
        proof {
            use_type_invariant(self);
        }
        Fields { map: header_map_clone(&self.map), mutable: true }
    }

    /// The same fields, seen through a handle that may not change them (the
    /// headers of a request or response).
    pub fn child(&self) -> (r: Self)
        ensures
            r.contents() == self.contents(),
            !r.is_mutable(),
    {
        proof {
            use_type_invariant(self);
        }
        Fields { map: header_map_clone(&self.map), mutable: false }
    }
}

/// What `fields.set` answers: the name's error, the first refused value's,
/// or, for fields that may not change, `immutable`.
pub open spec fn set_outcome(name: Seq<char>, values: Seq<Seq<u8>>, mutable: bool) -> Result<
    (),
    HeaderError,
> {
    match name_error(name) {
        Some(e) => Err(e),
        None => match values_for(ascii_lower(name), values) {
            Err(e) => Err(e),
            Ok(_) => if mutable {
                Ok(())
            } else {
                Err(HeaderError::Immutable)
            },
        },
    }
}

/// The fields `before` with the values of `name` replaced by `values`, as
/// a successful `set` leaves them: `name` is gone where no value remains.
pub open spec fn contents_after_set(
    before: Map<Seq<char>, Seq<Seq<u8>>>,
    name: Seq<char>,
    values: Seq<Seq<u8>>,
) -> Map<Seq<char>, Seq<Seq<u8>>> {
    let n = ascii_lower(name);
    let vs = values_for(n, values)->Ok_0;
    if vs.len() == 0 {
        before.remove(n)
    } else {
        before.insert(n, vs)
    }
}

/// What appending `value` to `name` on the host's side answers.
pub open spec fn received_append_outcome(name: Seq<char>, value: Seq<u8>) -> Result<
    (),
    HeaderError,
> {
    if !is_field_name(name) {
        Err(HeaderError::InvalidSyntax)
    } else {
        match field_value_for(ascii_lower(name), value) {
            Err(e) => Err(e),
            Ok(_) => Ok(()),
        }
    }
}

/// What appending `value` to `name` answers, for fields the guest may
/// change or not.
pub open spec fn append_outcome(name: Seq<char>, value: Seq<u8>, mutable: bool) -> Result<
    (),
    HeaderError,
> {
    match name_error(name) {
        Some(e) => Err(e),
        None => match field_value_for(ascii_lower(name), value) {
            Err(e) => Err(e),
            Ok(_) => if mutable {
                Ok(())
            } else {
                Err(HeaderError::Immutable)
            },
        },
    }
}

proof fn lemma_values_error_persists(n: Seq<char>, vs: Seq<Seq<u8>>, k: int)
    requires
        0 <= k <= vs.len(),
        values_for(n, vs.subrange(0, k)) is Err,
    ensures
        values_for(n, vs) == values_for(n, vs.subrange(0, k)),
    decreases vs.len(),
{
    if k == vs.len() {
        assert(vs.subrange(0, k) =~= vs);
    } else {
        assert(vs.drop_last().subrange(0, k) =~= vs.subrange(0, k));
        lemma_values_error_persists(n, vs.drop_last(), k);
    }
}

/// The elements of `vs` in reverse order.
fn reversed_values(vs: Vec<Vec<u8>>) -> (r: Vec<Vec<u8>>)
    ensures
        r.len() == vs.len(),
        forall|j: int| 0 <= j < r.len() ==> #[trigger] r@[j] == vs@[vs.len() - 1 - j],
{
    let ghost orig = vs@;
    let mut rest = vs;
    let mut r: Vec<Vec<u8>> = Vec::new();
    while rest.len() > 0
        invariant
            rest@ == orig.subrange(0, rest.len() as int),
            r.len() + rest.len() == orig.len(),
            forall|j: int| 0 <= j < r.len() ==> #[trigger] r@[j] == orig[orig.len() - 1 - j],
        decreases rest.len(),
    {
        let x = rest.pop().unwrap();
        r.push(x);
    }
    r
}

proof fn lemma_lower_is_canonical(s: Seq<char>)
    requires
        is_field_name(s),
    ensures
        is_canonical_name(ascii_lower(s)),
{
    let l = ascii_lower(s);
    assert forall|i: int| 0 <= i < l.len() implies is_token_char(#[trigger] l[i]) && lower_char(
        l[i],
    ) == l[i] by {
        assert(is_token_char(s[i]));
    }
    assert(ascii_lower(l) =~= l);
}

proof fn lemma_decimal_is_valid(n: nat)
    ensures
        is_field_value(decimal_digits(n)),
    decreases n,
{
    if n >= 10 {
        lemma_decimal_is_valid(n / 10);
    }
}

proof fn lemma_kept_value_is_valid(name: Seq<char>, value: Seq<u8>)
    ensures
        field_value_for(name, value) matches Ok(v) ==> is_field_value(v),
{
    if name == "content-length"@ {
        if let Some(n) = decimal_u64(value) {
            lemma_decimal_is_valid(n as nat);
        }
    }
}

proof fn lemma_list_error_persists(es: Seq<(String, Vec<u8>)>, k: int)
    requires
        0 <= k <= es.len(),
        fields_from_list(es.subrange(0, k)) is Err,
    ensures
        fields_from_list(es) == fields_from_list(es.subrange(0, k)),
    decreases es.len(),
{
    if k == es.len() {
        assert(es.subrange(0, k) =~= es);
    } else {
        assert(es.drop_last().subrange(0, k) =~= es.subrange(0, k));
        lemma_list_error_persists(es.drop_last(), k);
    }
}

/// The elements of `vs` in reverse order.
fn reversed_entries(vs: Vec<(String, Vec<u8>)>) -> (r: Vec<(String, Vec<u8>)>)
    ensures
        r.len() == vs.len(),
        forall|j: int| 0 <= j < r.len() ==> #[trigger] r@[j] == vs@[vs.len() - 1 - j],
{
    let ghost orig = vs@;
    let mut rest = vs;
    let mut r: Vec<(String, Vec<u8>)> = Vec::new();
    while rest.len() > 0
        invariant
            rest@ == orig.subrange(0, rest.len() as int),
            r.len() + rest.len() == orig.len(),
            forall|j: int| 0 <= j < r.len() ==> #[trigger] r@[j] == orig[orig.len() - 1 - j],
        decreases rest.len(),
    {
        let x = rest.pop().unwrap();
        r.push(x);
    }
    r
}


/// Looking a field up does not depend on the case of its name.
pub proof fn lemma_lookup_ignores_case(contents: Map<Seq<char>, Seq<Seq<u8>>>, name: Seq<char>)
    ensures
        field_values(contents, ascii_lower(name)) == field_values(contents, name),
{
    if is_field_name(name) {
        lemma_lower_is_canonical(name);
    } else {
        assert(ascii_lower(name).len() == name.len());
        if ascii_lower(name).len() >= 1 && ascii_lower(name).len() <= 65535 {
            let i = choose|i: int| 0 <= i < name.len() && !is_token_char(#[trigger] name[i]);
            assert(!is_token_char(ascii_lower(name)[i]));
        }
    }
}

/// What `set` stores under a name is what `get` then gives for it.
pub proof fn lemma_get_after_set(
    contents: Map<Seq<char>, Seq<Seq<u8>>>,
    name: Seq<char>,
    values: Seq<Seq<u8>>,
)
    requires
        set_outcome(name, values, true) is Ok,
    ensures
        ({
            let n = ascii_lower(name);
            let kept = values_for(n, values)->Ok_0;
            let after = if kept.len() == 0 {
                contents.remove(n)
            } else {
                contents.insert(n, kept)
            };
            field_values(after, name) == kept
        }),
{
}

/// After `delete`, `get` gives nothing for the name.
pub proof fn lemma_get_after_delete(contents: Map<Seq<char>, Seq<Seq<u8>>>, name: Seq<char>)
    requires
        name_error(name) is None,
    ensures
        field_values(contents.remove(ascii_lower(name)), name) == Seq::<Seq<u8>>::empty(),
{
}

/// `append` adds the kept value after the values that were there.
pub proof fn lemma_get_after_append(
    contents: Map<Seq<char>, Seq<Seq<u8>>>,
    name: Seq<char>,
    value: Seq<u8>,
)
    requires
        name_error(name) is None,
        field_value_for(ascii_lower(name), value) is Ok,
    ensures
        field_values(
            appended(contents, ascii_lower(name), field_value_for(ascii_lower(name), value)->Ok_0),
            name,
        ) == field_values(contents, name).push(field_value_for(ascii_lower(name), value)->Ok_0),
{
}

/// `set` and `append` change only the name they are given: every other
/// name keeps its values. After `set`, the name has exactly the kept
/// values (and is gone where there are none); after `append`, one more
/// value, last.
pub proof fn lemma_changes_touch_only_their_name(
    contents: Map<Seq<char>, Seq<Seq<u8>>>,
    name: Seq<char>,
    values: Seq<Seq<u8>>,
    value: Seq<u8>,
    other: Seq<char>,
)
    requires
        is_field_name(name),
        values_for(ascii_lower(name), values) is Ok,
        other != ascii_lower(name),
    ensures
        contents_after_set(contents, name, values).dom().contains(other) == contents.dom().contains(
            other,
        ),
        contents.dom().contains(other) ==> contents_after_set(contents, name, values)[other]
            == contents[other],
        appended(contents, ascii_lower(name), value).dom().contains(other) == contents.dom().contains(
            other,
        ),
        contents.dom().contains(other) ==> appended(contents, ascii_lower(name), value)[other]
            == contents[other],
        field_values(contents_after_set(contents, name, values), name) == values_for(
            ascii_lower(name),
            values,
        )->Ok_0,
        contents_after_set(contents, name, values).dom().contains(ascii_lower(name)) <==> values_for(
            ascii_lower(name),
            values,
        )->Ok_0.len() > 0,
        appended(contents, ascii_lower(name), value)[ascii_lower(name)].last() == value,
        appended(contents, ascii_lower(name), value)[ascii_lower(name)].len() == (if contents.dom().contains(
            ascii_lower(name),
        ) {
            contents[ascii_lower(name)].len()
        } else {
            0
        }) + 1,
{
    lemma_lower_is_canonical(name);
}

/// No field with a forbidden name is ever set, deleted or appended to.
pub proof fn lemma_forbidden_names_refused(name: Seq<char>, values: Seq<Seq<u8>>, mutable: bool)
    requires
        is_field_name(name),
        is_forbidden_name(ascii_lower(name)),
    ensures
        set_outcome(name, values, mutable) == Err::<(), HeaderError>(HeaderError::Forbidden),
        name_error(name) == Some(HeaderError::Forbidden),
{
}

/// A field value may hold tabs, spaces, visible ASCII and bytes past ASCII,
/// and no other control character nor DEL; the empty value is valid.
/// Looking names up ignores case: upper-case ASCII letters count as their
/// lower-case forms, and every other character as itself.
pub proof fn lemma_what_fields_may_hold(b: u8, c: char, v: Seq<u8>)
    ensures
        is_field_value(seq![b]) <==> (b == 9 || (b >= 32 && b != 127)),
        is_field_value(Seq::<u8>::empty()),
        is_field_value(v) && is_field_value(seq![b]) ==> is_field_value(v.push(b)),
        !is_field_value(seq![b]) ==> !is_field_value(v.push(b)),
        'A' <= c <= 'Z' ==> lower_char(c) as u32 == c as u32 + 32 && 'a' <= lower_char(c) <= 'z',
        !('A' <= c <= 'Z') ==> lower_char(c) == c,
        !is_field_name(Seq::<char>::empty()),
        is_token_char(c) ==> is_token_char(lower_char(c)),
        c == ' ' || c == ':' || c == '\n' || c == '"' || c == '(' || c == ')' || c == ','
            || c == '/' || c == ';' || c == '=' || c == '@' || c == '[' || c == ']' || c
            == '{' || c == '}' ==> !is_token_char(c),
{
    assert(v.push(b)[v.len() as int] == b);
    if is_field_value(v) && is_field_value(seq![b]) {
        assert forall|i: int| 0 <= i < v.push(b).len() implies ((#[trigger] v.push(b)[i] >= 32
            && v.push(b)[i] != 127) || v.push(b)[i] == 9) by {
            if i < v.len() {
                assert(v.push(b)[i] == v[i]);
            } else {
                assert(seq![b][0] == b);
            }
        }
    }
    if !is_field_value(seq![b]) {
        assert(seq![b][0] == b);
    }
}

/// The names a guest may not set are the connection's own (`connection`,
/// `keep-alive`, `proxy-authenticate`, `proxy-authorization`,
/// `proxy-connection`, `te`, `transfer-encoding`, `upgrade`), `host` and
/// `http2-settings`, and no other; they are refused whatever their case.
pub proof fn lemma_forbidden_names_are_hop_by_hop(name: Seq<char>)
    ensures
        is_forbidden_name("connection"@),
        is_forbidden_name("keep-alive"@),
        is_forbidden_name("proxy-authenticate"@),
        is_forbidden_name("proxy-authorization"@),
        is_forbidden_name("proxy-connection"@),
        is_forbidden_name("te"@),
        is_forbidden_name("transfer-encoding"@),
        is_forbidden_name("upgrade"@),
        is_forbidden_name("host"@),
        is_forbidden_name("http2-settings"@),
        is_forbidden_name(name) ==> name.len() >= 2,
        is_field_name(name) && is_forbidden_name(ascii_lower(name)) ==> name_error(name) == Some(
            HeaderError::Forbidden,
        ),
{
    reveal_strlit("connection");
    reveal_strlit("keep-alive");
    reveal_strlit("proxy-authenticate");
    reveal_strlit("proxy-authorization");
    reveal_strlit("proxy-connection");
    reveal_strlit("te");
    reveal_strlit("transfer-encoding");
    reveal_strlit("upgrade");
    reveal_strlit("host");
    reveal_strlit("http2-settings");
}

proof fn lemma_digits_of_decimal(n: nat)
    ensures
        all_digits(decimal_digits(n)),
        decimal_digits(n).len() > 0,
        digits_value(decimal_digits(n)) == n,
    decreases n,
{
    if n >= 10 {
        lemma_digits_of_decimal(n / 10);
        let s = decimal_digits(n);
        assert(s.drop_last() =~= decimal_digits(n / 10));
        assert(s.last() == (48 + n % 10) as u8);
        assert(n % 10 < 10);
        assert((48 + n % 10) as u8 == 48 + n % 10);
        assert((n / 10) * 10 + n % 10 == n) by (nonlinear_arith);
        assert(digits_value(s) == digits_value(s.drop_last()) * 10 + (s.last() - 48));
    } else {
        let s = decimal_digits(n);
        assert(s.drop_last() =~= Seq::<u8>::empty());
        assert((48 + n) as u8 == 48 + n);
        assert(digits_value(s) == digits_value(s.drop_last()) * 10 + (s.last() - 48));
    }
}

/// A `content-length` is kept as the shortest spelling of its number, which
/// spells the same number again.
pub proof fn lemma_content_length_round_trip(value: Seq<u8>)
    requires
        field_value_for("content-length"@, value) is Ok,
    ensures
        decimal_u64(field_value_for("content-length"@, value)->Ok_0) == decimal_u64(value),
{
    let n = decimal_u64(value)->0;
    lemma_digits_of_decimal(n as nat);
    let d = decimal_digits(n as nat);
    assert(d[0] != 43) by {
        assert(48 <= d[0] <= 57);
    }
    assert(unsigned_digits(d) == d);
}

} // verus!
