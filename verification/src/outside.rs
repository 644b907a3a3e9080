//! The calls this library makes into other crates. Each function here is
//! believed, not proved: its body makes one outside call and its contract says
//! what that call returns, mostly by giving the result a name.
use vstd::prelude::*;
use vstd::utf8::*;
use indexmap::IndexSet;

verus! {

/// `indexmap::IndexSet`, a set that keeps the order in which its items came.
#[verifier::external_type_specification]
#[verifier::external_body]
#[verifier::reject_recursive_types(T)]
#[verifier::reject_recursive_types(S)]
pub struct ExIndexSet<T, S>(indexmap::IndexSet<T, S>);

/// The items that a set of strings holds, in its order.
pub uninterp spec fn in_progress(set: IndexSet<String>) -> Seq<Seq<char>>;

/// What `convert_case` makes of a string in Pascal case.
pub uninterp spec fn pascal_case(s: Seq<char>) -> Seq<char>;

/// What `convert_case` makes of a string in snake case.
pub uninterp spec fn snake_case(s: Seq<char>) -> Seq<char>;

/// The identifier that `syn` reads from a string, as that identifier prints;
/// `None` where `syn` reads none.
pub uninterp spec fn parsed_ident(s: Seq<char>) -> Option<Seq<char>>;

/// Whether `proc_macro2` can lex a string as a stream of Rust tokens.
pub uninterp spec fn lexes_as_tokens(s: Seq<char>) -> bool;

/// Whether a character has the Unicode property XID_Start.
pub uninterp spec fn xid_start(c: char) -> bool;

/// The essence (type, slash, subtype, without parameters) of a media type as
/// `mime` parses it; `None` where `mime` rejects the string.
pub uninterp spec fn mime_essence(s: Seq<char>) -> Option<Seq<char>>;

/// The percent-decoded form of a string as `urlencoding` gives it; `None`
/// where the decoded bytes are not UTF-8.
pub uninterp spec fn percent_decoded(s: Seq<char>) -> Option<Seq<char>>;

/// The bytes that the standard base64 alphabet with padding decodes a string
/// to; `None` where the string is not such an encoding.
pub uninterp spec fn base64_decoded(s: Seq<char>) -> Option<Seq<u8>>;

/// Whether a string can be the value of a header: each of its bytes is a tab,
/// or is neither a control character nor the delete character.
pub open spec fn valid_header_value(s: Seq<char>) -> bool {
    forall|i: int|
        0 <= i < encode_utf8(s).len() ==> {
            let b = #[trigger] encode_utf8(s)[i];
            b == 9 || (b >= 32 && b != 127)
        }
}

/// Calls `IndexSet::new`, which gives a set without items.
#[verifier::external_body]
pub(crate) fn set_new() -> (r: IndexSet<String>)
    ensures
        in_progress(r) == Seq::<Seq<char>>::empty(),
{
    IndexSet::new()
}

/// Calls `IndexSet::contains`, which says whether the set holds the value.
#[verifier::external_body]
pub(crate) fn set_contains(set: &IndexSet<String>, value: &str) -> (r: bool)
    ensures
        r == in_progress(*set).contains(value@),
{
    set.contains(value)
}

/// Calls `IndexSet::insert`, which puts a value that the set does not hold
/// after all its items and says `true`, and leaves the set as it is and says
/// `false` for a value that it holds.
#[verifier::external_body]
pub(crate) fn set_insert(set: &mut IndexSet<String>, value: String) -> (r: bool)
    ensures
        r == !in_progress(*old(set)).contains(value@),
        r ==> in_progress(*final(set)) == in_progress(*old(set)).push(value@),
        !r ==> in_progress(*final(set)) == in_progress(*old(set)),
{
    set.insert(value)
}

/// Calls `IndexSet::swap_remove`, which takes a value out of the set by
/// putting the last item in its place, and says whether the set held it.
#[verifier::external_body]
pub(crate) fn set_swap_remove(set: &mut IndexSet<String>, value: &str) -> (r: bool)
    ensures
        r == in_progress(*old(set)).contains(value@),
        !r ==> in_progress(*final(set)) == in_progress(*old(set)),
        r ==> exists|i: int|
            0 <= i < in_progress(*old(set)).len() && in_progress(*old(set))[i] == value@
                && in_progress(*final(set)) == in_progress(*old(set)).update(
                i,
                in_progress(*old(set)).last(),
            ).drop_last(),
{
    set.swap_remove(value)
}

/// Calls `convert_case::Casing::to_case` with `Case::Pascal`. The result is a
/// function of the input alone; the contract only names it.
#[verifier::external_body]
pub(crate) fn to_pascal_case(s: &str) -> (r: String)
    ensures
        r@ == pascal_case(s@),
{
    convert_case::Casing::to_case(&s, convert_case::Case::Pascal)
}

/// Calls `convert_case::Casing::to_case` with `Case::Snake`. The result is a
/// function of the input alone; the contract only names it.
#[verifier::external_body]
pub(crate) fn to_snake_case(s: &str) -> (r: String)
    ensures
        r@ == snake_case(s@),
{
    convert_case::Casing::to_case(&s, convert_case::Case::Snake)
}

/// Calls `syn::parse_str` for a `proc_macro2::Ident` and hands back how the
/// identifier prints. The contract names the result.
#[verifier::external_body]
pub(crate) fn parse_ident(s: &str) -> (r: Option<String>)
    ensures
        r.is_some() == parsed_ident(s@).is_some(),
        r.is_some() ==> r.unwrap()@ == parsed_ident(s@).unwrap(),
{
    syn::parse_str::<proc_macro2::Ident>(s).ok().map(|ident| ident.to_string())
}

/// Calls `str::parse` for a `proc_macro2::TokenStream` and says whether it
/// succeeded. The contract names the result.
#[verifier::external_body]
pub(crate) fn is_token_stream(s: &str) -> (r: bool)
    ensures
        r == lexes_as_tokens(s@),
{
    s.parse::<proc_macro2::TokenStream>().is_ok()
}

/// Calls `unicode_ident::is_xid_start`. The contract names the result.
#[verifier::external_body]
pub(crate) fn is_xid_start(c: char) -> (r: bool)
    ensures
        r == xid_start(c),
{
    unicode_ident::is_xid_start(c)
}

/// Parses a media type with `mime` and hands back `Mime::essence_str`. The
/// contract names the result.
#[verifier::external_body]
pub(crate) fn essence_of(s: &str) -> (r: Option<String>)
    ensures
        r.is_some() == mime_essence(s@).is_some(),
        r.is_some() ==> r.unwrap()@ == mime_essence(s@).unwrap(),
{
    s.parse::<mime::Mime>().ok().map(|m| m.essence_str().to_string())
}

/// Calls `http::StatusCode::from_u16`, which accepts exactly the codes from
/// 100 to 999.
#[verifier::external_body]
pub(crate) fn is_status_code(code: u16) -> (r: bool)
    ensures
        r == (100 <= code <= 999),
{
    http::StatusCode::from_u16(code).is_ok()
}

/// Calls `http::HeaderValue::from_str` and says whether it succeeded: it
/// accepts a string exactly when each of its bytes is a tab, or is at least
/// 32 and not 127.
#[verifier::external_body]
pub(crate) fn is_header_value(s: &str) -> (r: bool)
    ensures
        r == valid_header_value(s@),
{
    http::HeaderValue::from_str(s).is_ok()
}

/// Calls `urlencoding::decode`. On success the contract names the text; on
/// failure the crate's message comes back, of which nothing is claimed.
#[verifier::external_body]
pub(crate) fn percent_decode(s: &str) -> (r: Result<String, String>)
    ensures
        r.is_ok() == percent_decoded(s@).is_some(),
        r.is_ok() ==> r.unwrap()@ == percent_decoded(s@).unwrap(),
{
    match urlencoding::decode(s) {
        Ok(text) => Ok(text.into_owned()),
        Err(err) => Err(err.to_string()),
    }
}

/// Calls `base64::Engine::decode` on `base64::engine::general_purpose::STANDARD`.
/// On success the contract names the bytes; on failure the crate's message
/// comes back, of which nothing is claimed.
#[verifier::external_body]
pub(crate) fn base64_decode(s: &str) -> (r: Result<Vec<u8>, String>)
    ensures
        r.is_ok() == base64_decoded(s@).is_some(),
        r.is_ok() ==> r.unwrap()@ == base64_decoded(s@).unwrap(),
{
    match base64::Engine::decode(&base64::engine::general_purpose::STANDARD, s) {
        Ok(bytes) => Ok(bytes),
        Err(err) => Err(err.to_string()),
    }
}

/// Calls `String::from_utf8`, which succeeds exactly on well-formed UTF-8 and
/// then holds the decoded characters. On failure the message of the error
/// comes back, of which nothing is claimed.
#[verifier::external_body]
pub(crate) fn text_from_utf8(bytes: Vec<u8>) -> (r: Result<String, String>)
    ensures
        r.is_ok() == valid_utf8(bytes@),
        r.is_ok() ==> r.unwrap()@ == decode_utf8(bytes@),
{
    match String::from_utf8(bytes) {
        Ok(text) => Ok(text),
        Err(err) => Err(err.to_string()),
    }
}

/// Calls `std::path::Path::parent` and hands back the parent as text; `None`
/// where the path has no parent. Nothing is claimed of the text: it depends
/// on the platform.
#[verifier::external_body]
pub(crate) fn parent_of(path: &str) -> (r: Option<String>)
{
    std::path::Path::new(path).parent().map(|parent| parent.to_string_lossy().into_owned())
}

/// Calls `std::path::Path::join` and hands back the joined path as text.
/// Nothing is claimed of the text: it depends on the platform.
#[verifier::external_body]
pub(crate) fn join_paths(base: &str, relative: &str) -> (r: String)
{
    std::path::Path::new(base).join(relative).to_string_lossy().into_owned()
}

/// Reads `headers::ContentType::name`, the header name `content-type`.
#[verifier::external_body]
pub(crate) fn content_type_header() -> (r: String)
    ensures
        r@ == "content-type"@,
{
    <headers::ContentType as headers::Header>::name().as_str().to_string()
}

/// Prints `headers::ContentType::text`, the media type `text/plain`.
#[verifier::external_body]
pub(crate) fn text_plain() -> (r: String)
    ensures
        r@ == "text/plain"@,
{
    headers::ContentType::text().to_string()
}

} // verus!
