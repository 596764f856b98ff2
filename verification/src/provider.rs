use vstd::prelude::*;
use vstd::string::StringExecFns;

use crate::models::{MediaDetails, MetadataSearchItem, ProviderError, SearchResults};

verus! {

/// The locale set this catalog serves; queried without network access.
pub fn supported_languages() -> (r: Vec<String>)
    ensures
        r@.len() == 1,
        r@[0]@ == "us"@,
{
    let mut v: Vec<String> = Vec::new();
    v.push(String::from_str("us"));
    v
}

/// The locale requests are localized to when the caller names none.
pub fn default_language() -> (r: String)
    ensures
        r@ == "us"@,
{
    String::from_str("us")
}

/// The no-op provider for a source that offers only auxiliary data: it
/// satisfies the provider contract without performing a catalog lookup.
#[derive(Clone, Copy, Debug)]
pub struct NonMediaMalService {}

impl NonMediaMalService {
    pub fn new() -> (r: NonMediaMalService) {
        NonMediaMalService {  }
    }

    /// A catalog search through a non-media provider always fails with
    /// `Unsupported`.
    pub fn metadata_search(
        &self,
        _query: &str,
        _page: Option<i32>,
        _display_nsfw: bool,
    ) -> (r: Result<SearchResults<MetadataSearchItem>, ProviderError>)
        ensures
            r == Err::<SearchResults<MetadataSearchItem>, ProviderError>(
                ProviderError::Unsupported,
            ),
    {
        Err(ProviderError::Unsupported)
    }

    /// A details fetch through a non-media provider always fails with
    /// `Unsupported`.
    pub fn metadata_details(&self, _identifier: &str) -> (r: Result<
        MediaDetails,
        ProviderError,
    >)
        ensures
            r == Err::<MediaDetails, ProviderError>(ProviderError::Unsupported),
    {
        Err(ProviderError::Unsupported)
    }
}

} // verus!
