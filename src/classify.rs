//! Telling network and download failures of a command apart from other ones.
use vstd::prelude::*;
use crate::text::{chars_of, contains_chars, contains_text};

verus! {

/// What `str::to_lowercase` returns for the characters `s`.
pub uninterp spec fn lower_of(s: Seq<char>) -> Seq<char>;

/// Relies on `str::to_lowercase`: its result depends on the characters alone,
/// and an empty string stays empty.
#[verifier::external_body]
pub(crate) fn lowercase(s: &str) -> (r: String)
    ensures
        r@ == lower_of(s@),
        s@.len() == 0 ==> r@.len() == 0,
{
    s.to_lowercase()
}

/// The lower-case fragments whose presence in a command's error output marks
/// the failure as a network or download problem, worth retrying on its own.
pub open spec fn network_patterns() -> Seq<Seq<char>> {
    seq![
        "failed retrieving file"@,
        "failed to download"@,
        "download failed"@,
        "connection timed out"@,
        "connection refused"@,
        "could not resolve host"@,
        "temporary failure in name resolution"@,
        "network is unreachable"@,
        "curl error"@,
        "timeout"@,
        "ssl"@,
        "tls"@,
        "certificate"@,
        "failed to retrieve"@,
        "error: target not found"@,
        "could not connect"@,
        "no route to host"@,
        "http error 404"@,
        "http error 503"@,
        "http error 502"@,
    ]
}

/// Already lower-cased error text that holds one of the network patterns.
pub open spec fn is_network_text(lowered: Seq<char>) -> bool {
    exists|k: int| 0 <= k < network_patterns().len() && contains_text(lowered, #[trigger] network_patterns()[k])
}

fn network_pattern_list() -> (r: Vec<&'static str>)
    ensures
        r@.map_values(|p: &'static str| p@) == network_patterns(),
{
    let mut v: Vec<&'static str> = Vec::new();
    v.push("failed retrieving file");
    v.push("failed to download");
    v.push("download failed");
    v.push("connection timed out");
    v.push("connection refused");
    v.push("could not resolve host");
    v.push("temporary failure in name resolution");
    v.push("network is unreachable");
    v.push("curl error");
    v.push("timeout");
    v.push("ssl");
    v.push("tls");
    v.push("certificate");
    v.push("failed to retrieve");
    v.push("error: target not found");
    v.push("could not connect");
    v.push("no route to host");
    v.push("http error 404");
    v.push("http error 503");
    v.push("http error 502");
    assert(v@.map_values(|p: &'static str| p@) =~= network_patterns());
    v
}

/// Whether already lower-cased error text names a network or download problem.
pub fn mentions_network_failure(lowered: &str) -> (r: bool)
    ensures
        r == is_network_text(lowered@),
{
    let text = chars_of(lowered);
    let patterns = network_pattern_list();
    let mut k: usize = 0;
    while k < patterns.len()
        invariant
            k <= patterns.len(),
            text@ == lowered@,
            patterns@.map_values(|p: &'static str| p@) == network_patterns(),
            forall|m: int| 0 <= m < k ==> !contains_text(lowered@, #[trigger] network_patterns()[m]),
        decreases patterns.len() - k,
    {
        let pat = chars_of(patterns[k]);
        assert(network_patterns()[k as int] == patterns@[k as int]@);
        if contains_chars(&text, &pat) {
            return true;
        }
        k = k + 1;
    }
    false
}

/// Whether a command's error output, compared without regard to case, names a
/// network or download problem.
pub fn is_network_or_download_error(error_output: &str) -> (r: bool)
    ensures
        r == is_network_text(lower_of(error_output@)),
{
    let lowered = lowercase(error_output);
    mentions_network_failure(lowered.as_str())
}

} // verus!
