use vstd::prelude::*;

verus! {

#[verifier::external_type_specification]
#[verifier::external_body]
pub struct ExUrl(url::Url);

/// Relies on `url::Url::path_segments_mut`, which fails, leaving the URL as
/// it was, when the URL cannot be a base, and on `PathSegmentsMut::extend`,
/// which appends each segment, percent-encoded, to the path.
#[verifier::external_body]
fn extend_path(url: &mut url::Url, segments: &[&str]) -> (extended: bool)
    ensures
        !extended ==> *final(url) == *old(url),
{
    match url.path_segments_mut() {
        Ok(mut path) => {
            path.extend(segments);
            true
        },
        Err(()) => false,
    }
}

/// `base_url` with `segments` appended to its path, each percent-encoded, one
/// path segment each. A URL that cannot be a base (such as `mailto:` ones)
/// has no path segments and comes back unchanged.
pub fn add_segments(base_url: url::Url, segments: &[&str]) -> url::Url {
    let mut url = base_url;
    let _ = extend_path(&mut url, segments);
    url
}

} // verus!
