use vstd::prelude::*;
use vstd::string::*;

use crate::error::{ArgError, ArgErrorModel};

verus! {

/// Whether `Url::parse` reads the text as an absolute URL that has a host.
pub uninterp spec fn is_absolute_url_with_host(s: Seq<char>) -> bool;

/// Relies on `url::Url::parse` (re-exported by reqwest as `reqwest::Url`),
/// which succeeds only on an absolute URL, and on `Url::has_host`, which says
/// whether the parsed URL has a host. The answer depends on the text alone.
#[verifier::external_body]
fn absolute_url_with_host(s: &str) -> (r: bool)
    ensures
        r == is_absolute_url_with_host(s@),
{
    match reqwest::Url::parse(s) {
        Ok(u) => u.has_host(),
        Err(_) => false,
    }
}

/// Checks that `s` is an absolute URL with a scheme and a host, and hands it
/// back unchanged; fails with `InvalidUrl`, holding `s`, otherwise.
pub fn parse_url(s: &str) -> (r: Result<String, ArgError>)
    ensures
        r is Ok <==> is_absolute_url_with_host(s@),
        r is Ok ==> r->Ok_0@ == s@,
        r is Err ==> r->Err_0@ == ArgErrorModel::Url(s@),
{
    if absolute_url_with_host(s) {
        Ok(String::from_str(s))
    } else {
        Err(ArgError::InvalidUrl(String::from_str(s)))
    }
}

} // verus!
