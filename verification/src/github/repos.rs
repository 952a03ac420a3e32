//! GitHub repository requests: URL pieces and percent-encoding.

use vstd::prelude::*;
use vstd::string::*;

use crate::urlencoding::{encode, percent_encoded};

verus! {

/// Percent-encodes a string for a URL query parameter: the UTF-8 bytes that
/// are not ASCII letters, digits or `-_.~` become `%XX`.
pub fn url_encode(input: &str) -> (r: String)
    ensures
        r@ == percent_encoded(input.spec_bytes()),
{
    encode(input)
}

/// `<base>/repos/<owner>/<repo>`.
pub fn repo_path(base: &str, owner: &str, repo: &str) -> (r: String)
    ensures
        r@ == base@ + "/repos/"@ + owner@ + "/"@ + repo@,
{
    let mut u = String::from_str(base);
    u.append("/repos/");
    u.append(owner);
    u.append("/");
    u.append(repo);
    u
}

} // verus!
