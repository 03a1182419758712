use vstd::prelude::*;

verus! {

/// Where the two template source files live, relative to the directory of
/// the configuration file they were named in.
pub struct TemplateConfig {
    pub index_file: String,
    pub error_file: String,
}

/// The per-service settings: how many directory entries one request may
/// return (`0` means unbounded) and the root directory the process is
/// confined to.
pub struct ServiceConfig {
    pub limit: u64,
    pub root: String,
}

/// The entry bound actually applied to a request: a `limit` of `0` means
/// unbounded, realised as the largest expressible count.
pub fn effective_limit(limit: u64) -> (r: usize)
    ensures
        limit == 0 ==> r == usize::MAX,
        0 < limit <= usize::MAX ==> r == limit,
        limit > usize::MAX ==> r == usize::MAX,
{
    if limit == 0 {
        usize::MAX
    } else if limit <= usize::MAX as u64 {
        limit as usize
    } else {
        usize::MAX
    }
}

} // verus!
