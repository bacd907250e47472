//! HTTP header names and values: which are valid, how names are normalised,
//! and header sets built with those checks.

use vstd::prelude::*;
use crate::error::Error;
use crate::strmap::StringMap;

verus! {

/// Whether `c` may stand in a header name (an RFC 7230 token character).
pub open spec fn is_token_char(c: char) -> bool {
    ||| ('a' <= c && c <= 'z')
    ||| ('A' <= c && c <= 'Z')
    ||| ('0' <= c && c <= '9')
    ||| c == '!' || c == '#' || c == '$' || c == '%' || c == '&' || c == '\'' || c == '*'
    ||| c == '+' || c == '-' || c == '.' || c == '^' || c == '_' || c == '`' || c == '|'
    ||| c == '~'
}

/// Whether `s` is a valid header name: one to 65535 token characters.
pub open spec fn is_valid_header_name(s: Seq<char>) -> bool {
    &&& 1 <= s.len() <= 65535
    &&& forall|i: int| 0 <= i < s.len() ==> is_token_char(#[trigger] s[i])
}

/// `c` with an ASCII capital letter made small.
pub open spec fn lower_char(c: char) -> char {
    if 'A' <= c && c <= 'Z' {
        ((c as u32) + 32) as char
    } else {
        c
    }
}

/// `s` with its ASCII capitals made small.
pub open spec fn lower_ascii(s: Seq<char>) -> Seq<char> {
    Seq::new(s.len(), |i: int| lower_char(s[i]))
}

/// Whether `s` is a valid header value: every character is a tab or is at
/// least a space and not DEL (non-ASCII characters are allowed).
pub open spec fn is_valid_header_value(s: Seq<char>) -> bool {
    forall|i: int| 0 <= i < s.len() ==> (#[trigger] s[i] == '\t' || (s[i] >= ' ' && s[i] != '\x7f'))
}

/// The normalised form of a header name (`http::HeaderName::from_bytes`):
/// for a valid name, the name in lower case; otherwise the error's message,
/// `invalid HTTP header name`.
#[verifier::external_body]
pub fn header_name_check(name: &str) -> (r: Result<String, String>)
    ensures
        r is Ok <==> is_valid_header_name(name@),
        r matches Ok(n) ==> n@ == lower_ascii(name@),
        r matches Err(m) ==> m@ == "invalid HTTP header name"@,
{
    match http::header::HeaderName::from_bytes(name.as_bytes()) {
        Ok(n) => Ok(n.as_str().to_string()),
        Err(e) => Err(e.to_string()),
    }
}

/// Checks a header value (`http::HeaderValue::from_str`): valid values pass;
/// otherwise the error's message, `failed to parse header value`.
#[verifier::external_body]
pub fn header_value_check(value: &str) -> (r: Result<(), String>)
    ensures
        r is Ok <==> is_valid_header_value(value@),
        r matches Err(m) ==> m@ == "failed to parse header value"@,
{
    match http::header::HeaderValue::from_str(value) {
        Ok(_) => Ok(()),
        Err(e) => Err(e.to_string()),
    }
}

/// The message of a header name that does not parse.
pub open spec fn invalid_name_message(name: Seq<char>) -> Seq<char> {
    "invalid header name `"@ + name + "`: "@ + "invalid HTTP header name"@
}

/// Whether `e` is the error of setting header `name` to `value`.
pub open spec fn is_header_error(e: Error, name: Seq<char>, value: Seq<char>) -> bool {
    if !is_valid_header_name(name) {
        e matches Error::Config(m) && m@ == invalid_name_message(name)
    } else {
        !is_valid_header_value(value) && (e matches Error::HeaderValue(m) && m@
            == "failed to parse header value"@)
    }
}

/// Whether setting header `name` to `value` succeeds.
pub open spec fn header_ok(name: Seq<char>, value: Seq<char>) -> bool {
    is_valid_header_name(name) && is_valid_header_value(value)
}

/// Sets header `name` (normalised to lower case) to `value`, after checking
/// both.
pub fn set_header(headers: &mut StringMap, name: &str, value: &str) -> (r: Result<(), Error>)
    ensures
        header_ok(name@, value@) ==> (r is Ok && final(headers)@ == old(headers)@.insert(
            lower_ascii(name@),
            value@,
        )),
        !header_ok(name@, value@) ==> (r matches Err(e) && is_header_error(e, name@, value@)
            && final(headers)@ == old(headers)@),
{
    let normalised = match header_name_check(name) {
        Ok(n) => n,
        Err(m) => {
            let mut text = "invalid header name `".to_string();
            text.append(name);
            text.append("`: ");
            text.append(m.as_str());
            return Err(Error::Config(text));
        },
    };
    match header_value_check(value) {
        Ok(()) => {},
        Err(m) => {
            return Err(Error::HeaderValue(m));
        },
    }
    headers.insert(normalised, value.to_string());
    Ok(())
}

/// The header set after setting each pair in turn (later pairs win).
pub open spec fn headers_after(base: Map<Seq<char>, Seq<char>>, pairs: Seq<(String, String)>) -> Map<
    Seq<char>,
    Seq<char>,
>
    decreases pairs.len(),
{
    if pairs.len() == 0 {
        base
    } else {
        headers_after(base, pairs.drop_last()).insert(
            lower_ascii(pairs.last().0@),
            pairs.last().1@,
        )
    }
}

/// The first pair, in order, that cannot be set.
pub open spec fn first_bad_header(pairs: Seq<(String, String)>) -> Option<int>
    decreases pairs.len(),
{
    if pairs.len() == 0 {
        None
    } else {
        match first_bad_header(pairs.drop_last()) {
            Some(i) => Some(i),
            None => if header_ok(pairs.last().0@, pairs.last().1@) {
                None
            } else {
                Some(pairs.len() - 1)
            },
        }
    }
}

/// Request headers take precedence: after the extra headers are applied,
/// the header named by an extra pair holds the value of the last pair of
/// that name, whatever the defaults held.
pub proof fn law_extra_headers_override(base: Map<Seq<char>, Seq<char>>, pairs: Seq<(String, String)>, i: int)
    requires
        0 <= i < pairs.len(),
        forall|j: int| i < j < pairs.len() ==> lower_ascii(#[trigger] pairs[j].0@) != lower_ascii(pairs[i].0@),
    ensures
        headers_after(base, pairs).contains_key(lower_ascii(pairs[i].0@)),
        headers_after(base, pairs)[lower_ascii(pairs[i].0@)] == pairs[i].1@,
    decreases pairs.len(),
{
    if i < pairs.len() - 1 {
        let rest = pairs.drop_last();
        assert forall|j: int| i < j < rest.len() implies lower_ascii(#[trigger] rest[j].0@) != lower_ascii(rest[i].0@) by {
            assert(rest[j] == pairs[j]);
        }
        law_extra_headers_override(base, rest, i);
        assert(lower_ascii(pairs[pairs.len() - 1].0@) != lower_ascii(pairs[i].0@));
    }
}

/// Defaults that no extra pair names are kept as they are.
pub proof fn law_unnamed_defaults_kept(base: Map<Seq<char>, Seq<char>>, pairs: Seq<(String, String)>, name: Seq<char>)
    requires
        forall|j: int| 0 <= j < pairs.len() ==> lower_ascii(#[trigger] pairs[j].0@) != name,
    ensures
        headers_after(base, pairs).contains_key(name) == base.contains_key(name),
        base.contains_key(name) ==> headers_after(base, pairs)[name] == base[name],
    decreases pairs.len(),
{
    if pairs.len() > 0 {
        let rest = pairs.drop_last();
        assert forall|j: int| 0 <= j < rest.len() implies lower_ascii(#[trigger] rest[j].0@) != name by {
            assert(rest[j] == pairs[j]);
        }
        law_unnamed_defaults_kept(base, rest, name);
        assert(lower_ascii(pairs[pairs.len() - 1].0@) != name);
    }
}

proof fn lemma_first_bad_header_range(pairs: Seq<(String, String)>)
    ensures
        first_bad_header(pairs) matches Some(i) ==> 0 <= i < pairs.len() && !header_ok(
            pairs[i].0@,
            pairs[i].1@,
        ),
    decreases pairs.len(),
{
    if pairs.len() > 0 {
        lemma_first_bad_header_range(pairs.drop_last());
    }
}

proof fn lemma_first_bad_header_prefix(pairs: Seq<(String, String)>, n: int)
    requires
        0 <= n <= pairs.len(),
        first_bad_header(pairs.take(n)) is Some,
    ensures
        first_bad_header(pairs) == first_bad_header(pairs.take(n)),
    decreases pairs.len(),
{
    if n < pairs.len() {
        assert(pairs.drop_last().take(n) =~= pairs.take(n));
        lemma_first_bad_header_prefix(pairs.drop_last(), n);
    } else {
        assert(pairs.take(n) =~= pairs);
    }
}

/// Sets every pair of `extra`, in order, checking each; stops at the first
/// pair that cannot be set.
pub fn set_headers(headers: &mut StringMap, extra: &StringMap) -> (r: Result<(), Error>)
    ensures
        match first_bad_header(extra.pairs@) {
            None => r is Ok && final(headers)@ == headers_after(old(headers)@, extra.pairs@),
            Some(i) => r matches Err(e) && is_header_error(
                e,
                extra.pairs@[i].0@,
                extra.pairs@[i].1@,
            ),
        },
{
    let ghost start = headers@;
    let mut i: usize = 0;
    assert(extra.pairs@.take(0) =~= Seq::<(String, String)>::empty());
    while i < extra.pairs.len()
        invariant
            i <= extra.pairs@.len(),
            first_bad_header(extra.pairs@.take(i as int)) is None,
            headers@ == headers_after(start, extra.pairs@.take(i as int)),
        decreases extra.pairs@.len() - i,
    {
        assert(extra.pairs@.take(i + 1).drop_last() =~= extra.pairs@.take(i as int));
        assert(extra.pairs@.take(i + 1).last() == extra.pairs@[i as int]);
        let set = set_header(headers, extra.pairs[i].0.as_str(), extra.pairs[i].1.as_str());
        match set {
            Ok(()) => {},
            Err(e) => {
                proof {
                    lemma_first_bad_header_prefix(extra.pairs@, i + 1);
                }
                return Err(e);
            },
        }
        i = i + 1;
    }
    assert(extra.pairs@.take(extra.pairs@.len() as int) =~= extra.pairs@);
    Ok(())
}

} // verus!
