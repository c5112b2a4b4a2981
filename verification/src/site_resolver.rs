//! Where the registrable domain lies within a host name.

use vstd::prelude::*;

verus! {

/// The range of the registrable domain within a host name of `host_len`
/// bytes: its last `base_domain_len` bytes if the lookup gave a domain
/// that is not empty and no longer than the host, and the whole host
/// otherwise.
pub open spec fn domain_range(host_len: usize, base_domain_len: Option<usize>) -> (usize, usize) {
    match base_domain_len {
        Some(len) => if 0 < len <= host_len {
            ((host_len - len) as usize, host_len)
        } else {
            (0usize, host_len)
        },
        None => (0usize, host_len),
    }
}

/// Computes the range of the registrable domain within a host name from
/// the length of the domain that a lookup gave, if it gave one.
pub fn host_domain_range(host_len: usize, base_domain_len: Option<usize>) -> (range: (usize, usize))
    ensures
        range == domain_range(host_len, base_domain_len),
        range.0 <= range.1 == host_len,
{
    match base_domain_len {
        Some(len) => {
            if len > 0 && len <= host_len {
                return (host_len - len, host_len);
            }
        },
        None => {},
    }
    (0, host_len)
}

} // verus!
