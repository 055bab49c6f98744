use vstd::prelude::*;

verus! {

/// The body of a request that creates a provider.
#[derive(Debug)]
pub struct CreateProvider {
    pub title: String,
    pub logo: Option<String>,
    pub url: Option<String>,
}

/// Paging and search options of the provider list.
#[derive(Debug)]
pub struct ProviderFilterOptions {
    pub page: Option<usize>,
    pub limit: Option<usize>,
    pub query: Option<String>,
}

} // verus!
