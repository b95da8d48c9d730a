//! Declarations of the outside types that pass through the library, and the
//! contracts of the outside functions that are called on them directly.
use vstd::prelude::*;

verus! {

#[verifier::external_type_specification]
#[verifier::external_body]
pub struct ExUri(http::Uri);

#[verifier::external_type_specification]
#[verifier::external_body]
pub struct ExMethod(http::Method);

#[verifier::external_type_specification]
#[verifier::external_body]
pub struct ExStatusCode(http::StatusCode);

#[verifier::external_type_specification]
#[verifier::external_body]
pub struct ExUuid(uuid::Uuid);

/// The numeric value of a status code.
pub uninterp spec fn status_value(s: http::StatusCode) -> u16;

/// The name of an http method.
pub uninterp spec fn method_text(m: http::Method) -> Seq<char>;

/// The scheme of a URI, if it has one.
pub uninterp spec fn uri_scheme(u: http::Uri) -> Option<Seq<char>>;

/// The host of a URI, if it has an authority.
pub uninterp spec fn uri_host(u: http::Uri) -> Option<Seq<char>>;

/// The port of a URI, if its authority gives one.
pub uninterp spec fn uri_port(u: http::Uri) -> Option<u16>;

/// The path of a URI, without the query.
pub uninterp spec fn uri_path(u: http::Uri) -> Seq<char>;

/// The whole nanoseconds of a duration.
pub uninterp spec fn duration_nanos(d: core::time::Duration) -> u128;

/// http's `StatusCode::as_u16`: the code's value, which lies in `100..1000`, as
/// `StatusCode::from_u16` and `StatusCode::from_bytes` check on construction.
pub assume_specification[ http::StatusCode::as_u16 ](s: &http::StatusCode) -> (r: u16)
    ensures
        r == status_value(*s),
        100 <= r < 1000,
;

/// http's `Method::as_str`: the method's name.
pub assume_specification<'a>[ http::Method::as_str ](m: &'a http::Method) -> (r: &'a str)
    ensures
        r@ == method_text(*m),
;

/// http's `Uri::scheme_str`: the scheme, if the URI has one.
pub assume_specification<'a>[ http::Uri::scheme_str ](u: &'a http::Uri) -> (r: Option<&'a str>)
    ensures
        r is None <==> uri_scheme(*u) is None,
        r matches Some(t) ==> uri_scheme(*u) == Some(t@),
;

/// http's `Uri::host`: the host, if the URI has an authority.
pub assume_specification<'a>[ http::Uri::host ](u: &'a http::Uri) -> (r: Option<&'a str>)
    ensures
        r is None <==> uri_host(*u) is None,
        r matches Some(t) ==> uri_host(*u) == Some(t@),
;

/// http's `Uri::port_u16`: the port, if the authority gives one.
pub assume_specification[ http::Uri::port_u16 ](u: &http::Uri) -> (r: Option<u16>)
    ensures
        r == uri_port(*u),
;

/// http's `Uri::path`: the path, without the query.
pub assume_specification<'a>[ http::Uri::path ](u: &'a http::Uri) -> (r: &'a str)
    ensures
        r@ == uri_path(*u),
;

/// uuid's `Uuid::new_v4`: a fresh random identifier.
pub assume_specification[ uuid::Uuid::new_v4 ]() -> uuid::Uuid;

/// std's `Duration::as_nanos`: the whole nanoseconds of the duration.
pub assume_specification[ core::time::Duration::as_nanos ](d: &core::time::Duration) -> (r: u128)
    ensures
        r == duration_nanos(*d),
;

} // verus!
