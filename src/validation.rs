use vstd::prelude::*;
use crate::constants::MAX_PAGE_SIZE;
use crate::decimal::{decimal, decimal_string};
use crate::error::AppError;
use crate::text::str_eq;
use vstd::string::StringSliceAdditionalSpecFns;

verus! {

/// Checks a page request: `page` and `limit` at least 1, `limit` at most
/// the maximum page size.
pub fn validate_pagination(page: u32, limit: u32) -> (r: Result<(u32, u32), AppError>)
    ensures
        (page >= 1 && 1 <= limit <= MAX_PAGE_SIZE) <==> r is Ok,
        r matches Ok((p, l)) ==> p == page && l == limit,
        page == 0 ==> (r matches Err(AppError::Validation(m)) && m@ == "Page must be greater than 0"@),
        page != 0 && limit == 0 ==> (r matches Err(AppError::Validation(m)) && m@
            == "Limit must be greater than 0"@),
        page != 0 && limit > MAX_PAGE_SIZE ==> (r matches Err(AppError::Validation(m)) && m@
            == "Limit cannot exceed "@ + decimal(MAX_PAGE_SIZE as nat)),
{
    if page == 0 {
        return Err(AppError::validation("Page must be greater than 0"));
    }
    if limit == 0 {
        return Err(AppError::validation("Limit must be greater than 0"));
    }
    if limit > MAX_PAGE_SIZE {
        let max = decimal_string(MAX_PAGE_SIZE as u64);
        return Err(AppError::Validation(String::from_str("Limit cannot exceed ").concat(max.as_str())));
    }
    Ok((page, limit))
}

pub open spec fn is_supported_language(s: Seq<char>) -> bool {
    s == "en"@ || s == "ko"@ || s == "ja"@ || s == "zh"@
}

pub open spec fn is_supported_country(s: Seq<char>) -> bool {
    s == "KR"@ || s == "JP"@ || s == "US"@ || s == "CN"@
}

pub open spec fn is_notification_type(s: Seq<char>) -> bool {
    s == "discount_update"@ || s == "shop_subscription"@ || s == "brand_subscription"@ || s
        == "category_subscription"@
}

pub open spec fn is_setting_type(s: Seq<char>) -> bool {
    s == "push"@ || s == "discount"@ || s == "shop"@ || s == "brand"@ || s == "category"@
}

/// `r` is `Ok` with exactly the characters `v`.
pub open spec fn ok_with(r: Result<String, AppError>, v: Seq<char>) -> bool {
    r matches Ok(s) && s@ == v
}

/// `r` is a validation failure with message `m`.
pub open spec fn invalid_with<T>(r: Result<T, AppError>, m: Seq<char>) -> bool {
    r matches Err(AppError::Validation(x)) && x@ == m
}

fn invalid_value(prefix: &str, value: &str, suffix: &str) -> (r: AppError)
    ensures
        r matches AppError::Validation(m) && m@ == prefix@ + value@ + suffix@,
{
    AppError::Validation(String::from_str(prefix).concat(value).concat(suffix))
}

/// A language code: empty means the default language; otherwise it must be
/// one of the supported ones.
pub fn validate_language(language: &str) -> (r: Result<String, AppError>)
    ensures
        language@.len() == 0 ==> ok_with(r, "en"@),
        language@.len() > 0 && is_supported_language(language@) ==> ok_with(r, language@),
        language@.len() > 0 && !is_supported_language(language@) ==> invalid_with(
            r,
            "Unsupported language: "@ + language@ + ". Supported: [\"en\", \"ko\", \"ja\", \"zh\"]"@,
        ),
{
    if language.is_empty() {
        return Ok(String::from_str("en"));
    }
    if str_eq(language, "en") || str_eq(language, "ko") || str_eq(language, "ja") || str_eq(
        language,
        "zh",
    ) {
        Ok(String::from_str(language))
    } else {
        Err(
            invalid_value(
                "Unsupported language: ",
                language,
                ". Supported: [\"en\", \"ko\", \"ja\", \"zh\"]",
            ),
        )
    }
}

/// A country code: empty means the default country; otherwise it must be
/// one of the supported ones.
pub fn validate_country(country: &str) -> (r: Result<String, AppError>)
    ensures
        country@.len() == 0 ==> ok_with(r, "KR"@),
        country@.len() > 0 && is_supported_country(country@) ==> ok_with(r, country@),
        country@.len() > 0 && !is_supported_country(country@) ==> invalid_with(
            r,
            "Unsupported country: "@ + country@ + ". Supported: [\"KR\", \"JP\", \"US\", \"CN\"]"@,
        ),
{
    if country.is_empty() {
        return Ok(String::from_str("KR"));
    }
    if str_eq(country, "KR") || str_eq(country, "JP") || str_eq(country, "US") || str_eq(
        country,
        "CN",
    ) {
        Ok(String::from_str(country))
    } else {
        Err(
            invalid_value(
                "Unsupported country: ",
                country,
                ". Supported: [\"KR\", \"JP\", \"US\", \"CN\"]",
            ),
        )
    }
}

pub fn validate_notification_type(notification_type: &str) -> (r: Result<String, AppError>)
    ensures
        is_notification_type(notification_type@) ==> ok_with(r, notification_type@),
        !is_notification_type(notification_type@) ==> invalid_with(
            r,
            "Invalid notification type: "@ + notification_type@
                + ". Supported: [\"discount_update\", \"shop_subscription\", \"brand_subscription\", \"category_subscription\"]"@,
        ),
{
    if str_eq(notification_type, "discount_update") || str_eq(notification_type, "shop_subscription")
        || str_eq(notification_type, "brand_subscription") || str_eq(
        notification_type,
        "category_subscription",
    ) {
        Ok(String::from_str(notification_type))
    } else {
        Err(
            invalid_value(
                "Invalid notification type: ",
                notification_type,
                ". Supported: [\"discount_update\", \"shop_subscription\", \"brand_subscription\", \"category_subscription\"]",
            ),
        )
    }
}

pub fn validate_notification_setting_type(setting_type: &str) -> (r: Result<String, AppError>)
    ensures
        is_setting_type(setting_type@) ==> ok_with(r, setting_type@),
        !is_setting_type(setting_type@) ==> invalid_with(
            r,
            "Invalid notification setting type: "@ + setting_type@
                + ". Supported: [\"push\", \"discount\", \"shop\", \"brand\", \"category\"]"@,
        ),
{
    if str_eq(setting_type, "push") || str_eq(setting_type, "discount") || str_eq(
        setting_type,
        "shop",
    ) || str_eq(setting_type, "brand") || str_eq(setting_type, "category") {
        Ok(String::from_str(setting_type))
    } else {
        Err(
            invalid_value(
                "Invalid notification setting type: ",
                setting_type,
                ". Supported: [\"push\", \"discount\", \"shop\", \"brand\", \"category\"]",
            ),
        )
    }
}

pub open spec fn is_hex_char(c: char) -> bool {
    ('0' <= c && c <= '9') || ('a' <= c && c <= 'f') || ('A' <= c && c <= 'F')
}

/// 32 hexadecimal digits.
pub open spec fn uuid_simple(s: Seq<char>) -> bool {
    s.len() == 32 && forall|i: int| 0 <= i < 32 ==> is_hex_char(#[trigger] s[i])
}

/// 36 characters: hyphens at 8, 13, 18 and 23, hexadecimal digits elsewhere.
pub open spec fn uuid_hyphenated(s: Seq<char>) -> bool {
    &&& s.len() == 36
    &&& forall|i: int|
        0 <= i < 36 ==> if i == 8 || i == 13 || i == 18 || i == 23 {
            #[trigger] s[i] == '-'
        } else {
            is_hex_char(s[i])
        }
}

/// `urn:uuid:` in any mix of ASCII case.
pub open spec fn urn_prefix(p: Seq<char>) -> bool {
    p.len() == 9 && forall|i: int|
        0 <= i < 9 ==> #[trigger] p[i] == "urn:uuid:"@[i] || p[i] == "URN:UUID:"@[i]
}

/// The texts that `uuid::Uuid::parse_str` accepts: the simple form, the
/// hyphenated form, the hyphenated form in braces, or the hyphenated form
/// behind `urn:uuid:`.
pub open spec fn uuid_accepts(s: Seq<char>) -> bool {
    ||| uuid_simple(s)
    ||| uuid_hyphenated(s)
    ||| (s.len() == 38 && s[0] == '{' && s[37] == '}' && uuid_hyphenated(s.subrange(1, 37)))
    ||| (s.len() == 45 && urn_prefix(s.subrange(0, 9)) && uuid_hyphenated(s.subrange(9, 45)))
}

/// Relies on `uuid::Uuid::parse_str` (`try_parse`, `parse_hyphenated`,
/// `decode_hex32`): whether the text parses as a UUID. Every accepted text
/// is ASCII, so its length in bytes and in characters agree.
#[verifier::external_body]
fn parses_as_uuid(s: &str) -> (r: bool)
    ensures
        r == uuid_accepts(s@),
{
    uuid::Uuid::parse_str(s).is_ok()
}

pub fn validate_uuid(id: &str) -> (r: Result<String, AppError>)
    ensures
        uuid_accepts(id@) ==> ok_with(r, id@),
        !uuid_accepts(id@) ==> invalid_with(r, "Invalid UUID format: "@ + id@),
{
    if parses_as_uuid(id) {
        Ok(String::from_str(id))
    } else {
        Err(AppError::Validation(String::from_str("Invalid UUID format: ").concat(id)))
    }
}

fn has_char(s: &str, c: char) -> (r: bool)
    ensures
        r == s@.contains(c),
{
    let n = s.unicode_len();
    let mut i: usize = 0;
    while i < n
        invariant
            n == s@.len(),
            i <= n,
            forall|j: int| 0 <= j < i ==> s@[j] != c,
        decreases n - i,
    {
        if s.get_char(i) == c {
            return true;
        }
        i = i + 1;
    }
    false
}

/// An e-mail address: not empty, with an `@`.
pub fn validate_email(email: &str) -> (r: Result<String, AppError>)
    ensures
        email@.len() == 0 ==> invalid_with(r, "Email cannot be empty"@),
        email@.len() > 0 && !email@.contains('@') ==> invalid_with(r, "Invalid email format"@),
        email@.len() > 0 && email@.contains('@') ==> ok_with(r, email@),
{
    if email.is_empty() {
        return Err(AppError::validation("Email cannot be empty"));
    }
    if !has_char(email, '@') {
        return Err(AppError::validation("Invalid email format"));
    }
    Ok(String::from_str(email))
}

/// The characters with the Unicode White_Space property, which
/// `char::is_whitespace` tests.
pub open spec fn is_white_space(c: char) -> bool {
    let n = c as u32;
    (9 <= n && n <= 13) || n == 32 || n == 0x85 || n == 0xA0 || n == 0x1680 || (0x2000 <= n && n
        <= 0x200A) || n == 0x2028 || n == 0x2029 || n == 0x202F || n == 0x205F || n == 0x3000
}

pub open spec fn trim_start(s: Seq<char>) -> Seq<char>
    decreases s.len(),
{
    if s.len() > 0 && is_white_space(s[0]) {
        trim_start(s.drop_first())
    } else {
        s
    }
}

pub open spec fn trim_end(s: Seq<char>) -> Seq<char>
    decreases s.len(),
{
    if s.len() > 0 && is_white_space(s.last()) {
        trim_end(s.drop_last())
    } else {
        s
    }
}

/// What `str::trim` leaves of `s`: `s` without leading and trailing white
/// space.
pub open spec fn trimmed(s: Seq<char>) -> Seq<char> {
    trim_end(trim_start(s))
}

/// Relies on `str::trim`, documented to remove leading and trailing white
/// space as Unicode's White_Space property defines it.
#[verifier::external_body]
fn trim_str(s: &str) -> (r: String)
    ensures
        r@ == trimmed(s@),
{
    s.trim().to_string()
}

/// The length of `s` in UTF-8 bytes, as `str::len` gives it.
pub open spec fn byte_len(s: &str) -> int {
    s.spec_bytes().len() as usize as int
}

/// A search query: between 2 and 100 bytes long; what is returned is the
/// query trimmed of surrounding white space.
pub fn validate_search_query(query: &str) -> (r: Result<String, AppError>)
    ensures
        query@.len() == 0 ==> invalid_with(r, "Search query cannot be empty"@),
        query@.len() > 0 && byte_len(query) < 2 ==> invalid_with(
            r,
            "Search query must be at least 2 characters"@,
        ),
        query@.len() > 0 && byte_len(query) > 100 ==> invalid_with(
            r,
            "Search query cannot exceed 100 characters"@,
        ),
        query@.len() > 0 && 2 <= byte_len(query) <= 100 ==> ok_with(r, trimmed(query@)),
{
    if query.is_empty() {
        return Err(AppError::validation("Search query cannot be empty"));
    }
    if query.len() < 2 {
        return Err(AppError::validation("Search query must be at least 2 characters"));
    }
    if query.len() > 100 {
        return Err(AppError::validation("Search query cannot exceed 100 characters"));
    }
    Ok(trim_str(query))
}

/// How many times `c` occurs in `s`.
pub open spec fn count_of(s: Seq<char>, c: char) -> nat
    decreases s.len(),
{
    if s.len() == 0 {
        0
    } else {
        count_of(s.drop_last(), c) + if s.last() == c {
            1nat
        } else {
            0nat
        }
    }
}

/// The index of the first `c` in `s` (its length when there is none).
pub open spec fn first_index(s: Seq<char>, c: char) -> int
    decreases s.len(),
{
    if s.len() == 0 {
        0
    } else if s[0] == c {
        0
    } else {
        1 + first_index(s.drop_first(), c)
    }
}

proof fn lemma_first_index(s: Seq<char>, c: char, k: int)
    requires
        0 <= k < s.len(),
        s[k] == c,
        forall|j: int| 0 <= j < k ==> s[j] != c,
    ensures
        first_index(s, c) == k,
    decreases k,
{
    if k > 0 {
        assert forall|j: int| 0 <= j < k - 1 implies s.drop_first()[j] != c by {
            assert(s.drop_first()[j] == s[j + 1]);
        }
        lemma_first_index(s.drop_first(), c, k - 1);
    }
}

/// The text of a list of names as it is shown in messages: `["a", "b"]`.
pub open spec fn list_text(names: Seq<Seq<char>>) -> Seq<char> {
    "["@ + joined(names) + "]"@
}

pub open spec fn joined(names: Seq<Seq<char>>) -> Seq<char>
    decreases names.len(),
{
    if names.len() == 0 {
        Seq::empty()
    } else if names.len() == 1 {
        "\""@ + names[0] + "\""@
    } else {
        joined(names.drop_last()) + ", \""@ + names.last() + "\""@
    }
}

pub open spec fn names_of(fields: Seq<&str>) -> Seq<Seq<char>> {
    fields.map_values(|f: &str| f@)
}

fn list_string(fields: &[&str]) -> (r: String)
    ensures
        r@ == list_text(names_of(fields@)),
{
    let mut out = String::new();
    let mut i: usize = 0;
    while i < fields.len()
        invariant
            i <= fields@.len(),
            out@ == joined(names_of(fields@.subrange(0, i as int))),
        decreases fields@.len() - i,
    {
        proof {
            assert(names_of(fields@.subrange(0, i as int + 1)).drop_last() =~= names_of(
                fields@.subrange(0, i as int),
            ));
        }
        if i == 0 {
            out.append("\"");
        } else {
            out.append(", \"");
        }
        out.append(fields[i]);
        out.append("\"");
        proof {
            if i == 0 {
                assert(out@ =~= "\""@ + fields@[0]@ + "\""@);
            } else {
                assert(out@ =~= joined(names_of(fields@.subrange(0, i as int))) + ", \""@ + fields@[i as int]@ + "\""@);
            }
        }
        i = i + 1;
    }
    proof {
        assert(fields@.subrange(0, fields@.len() as int) =~= fields@);
    }
    String::from_str("[").concat(out.as_str()).concat("]")
}

/// A sort option `field:direction`: empty means newest first; otherwise it
/// must split at its one `:` into an allowed field and `asc` or `desc`.
pub fn validate_sort_option(sort: &str, allowed_fields: &[&str]) -> (r: Result<
    (String, String),
    AppError,
>)
    ensures
        sort@.len() == 0 ==> (r matches Ok((f, d)) && f@ == "created_at"@ && d@ == "desc"@),
        sort@.len() > 0 && count_of(sort@, ':') != 1 ==> invalid_with(
            r,
            "Sort format must be 'field:direction' (e.g., 'name:asc')"@,
        ),
        sort@.len() > 0 && count_of(sort@, ':') == 1 ==> {
            let k = first_index(sort@, ':');
            let field = sort@.subrange(0, k);
            let dir = sort@.subrange(k + 1, sort@.len() as int);
            if !names_of(allowed_fields@).contains(field) {
                invalid_with(
                    r,
                    "Invalid sort field: "@ + field + ". Allowed: "@ + list_text(
                        names_of(allowed_fields@),
                    ),
                )
            } else if dir != "asc"@ && dir != "desc"@ {
                invalid_with(r, "Sort direction must be 'asc' or 'desc'"@)
            } else {
                r matches Ok((f, d)) && f@ == field && d@ == dir
            }
        },
{
    if sort.is_empty() {
        return Ok((String::from_str("created_at"), String::from_str("desc")));
    }
    let n = sort.unicode_len();
    let mut colons: usize = 0;
    let mut first: usize = n;
    let mut i: usize = 0;
    while i < n
        invariant
            n == sort@.len(),
            i <= n,
            colons as nat == count_of(sort@.subrange(0, i as int), ':'),
            colons <= i,
            colons == 0 ==> first == n && forall|j: int| 0 <= j < i ==> sort@[j] != ':',
            colons > 0 ==> first < i && sort@[first as int] == ':' && forall|j: int|
                0 <= j < first ==> sort@[j] != ':',
        decreases n - i,
    {
        proof {
            assert(sort@.subrange(0, i as int + 1).drop_last() =~= sort@.subrange(0, i as int));
        }
        if sort.get_char(i) == ':' {
            if colons == 0 {
                first = i;
            }
            colons = colons + 1;
        }
        i = i + 1;
    }
    proof {
        assert(sort@.subrange(0, n as int) =~= sort@);
    }
    if colons != 1 {
        return Err(AppError::validation("Sort format must be 'field:direction' (e.g., 'name:asc')"));
    }
    proof {
        lemma_first_index(sort@, ':', first as int);
    }
    let field = sort.substring_char(0, first);
    let direction = sort.substring_char(first + 1, n);
    let mut allowed = false;
    let mut j: usize = 0;
    while j < allowed_fields.len()
        invariant
            j <= allowed_fields@.len(),
            allowed == exists|k: int| 0 <= k < j && #[trigger] allowed_fields@[k]@ == field@,
        decreases allowed_fields@.len() - j,
    {
        if str_eq(allowed_fields[j], field) {
            allowed = true;
        }
        j = j + 1;
    }
    proof {
        if allowed {
            let k = choose|k: int| 0 <= k < j && #[trigger] allowed_fields@[k]@ == field@;
            assert(names_of(allowed_fields@)[k] == field@);
        }
        if names_of(allowed_fields@).contains(field@) {
            let k = choose|k: int| 0 <= k < names_of(allowed_fields@).len() && names_of(allowed_fields@)[k] == field@;
            assert(allowed_fields@[k]@ == field@);
        }
    }
    if !allowed {
        let list = list_string(allowed_fields);
        return Err(
            AppError::Validation(
                String::from_str("Invalid sort field: ").concat(field).concat(". Allowed: ").concat(
                    list.as_str(),
                ),
            ),
        );
    }
    if !(str_eq(direction, "asc") || str_eq(direction, "desc")) {
        return Err(AppError::validation("Sort direction must be 'asc' or 'desc'"));
    }
    Ok((String::from_str(field), String::from_str(direction)))
}

} // verus!
