//! The domains under which virtual-hosted-style requests reach the server.
use vstd::prelude::*;

verus! {

/// The domains that a server is known by, `s3s::host::MultiDomain`.
#[verifier::external_type_specification]
#[verifier::external_body]
pub struct ExMultiDomain(s3s::host::MultiDomain);

/// Why a list of domains is refused.
#[derive(Clone, Copy, Debug, PartialEq, Eq, Structural)]
pub enum HostError {
    /// One of them is not the name of a domain.
    InvalidDomain,
    /// One of them ends with another.
    OverlappingSubdomains,
    /// There are none.
    ZeroDomains,
}

/// The domains that the value holds, in order.
pub uninterp spec fn base_domains(hosts: s3s::host::MultiDomain) -> Seq<Seq<char>>;

/// Whether `s3s::host::MultiDomain::new` takes a text for the name of a domain.
pub uninterp spec fn is_valid_domain(domain: Seq<char>) -> bool;

/// The characters of each of some texts.
pub open spec fn texts(strings: Seq<String>) -> Seq<Seq<char>> {
    strings.map_values(|s: String| s@)
}

/// Whether one of the domains at two places ends with the other.
pub open spec fn overlap(domains: Seq<Seq<char>>, i: int, j: int) -> bool {
    domains[i].is_suffix_of(domains[j]) || domains[j].is_suffix_of(domains[i])
}

/// Whether the last of the domains overlaps an earlier one.
pub open spec fn last_overlaps(domains: Seq<Seq<char>>) -> bool {
    exists|i: int| 0 <= i < domains.len() - 1 && #[trigger] overlap(domains, i, domains.len() - 1)
}

/// What is wrong with a list of domains, if anything is: the first domain at fault
/// decides, which is not the name of one or overlaps an earlier one.
pub open spec fn domain_fault(domains: Seq<Seq<char>>) -> Option<HostError>
    decreases domains.len(),
{
    if domains.len() == 0 {
        None
    } else if domain_fault(domains.drop_last()) is Some {
        domain_fault(domains.drop_last())
    } else if !is_valid_domain(domains.last()) {
        Some(HostError::InvalidDomain)
    } else if last_overlaps(domains) {
        Some(HostError::OverlappingSubdomains)
    } else {
        None
    }
}

/// Calls `s3s::host::MultiDomain::new`. It takes the domains one by one, refuses
/// the list for the first that is not the name of a domain or that ends with an
/// earlier one or the other way round, and keeps them as they are given. It
/// refuses an empty list, and only that, as `ZeroDomains`. What the name of a
/// domain is, `is_valid_domain` stands for.
#[verifier::external_body]
fn multi_domain(domains: &Vec<String>) -> (r: Result<s3s::host::MultiDomain, HostError>)
    ensures
        match r {
            Ok(hosts) => {
                &&& domains@.len() > 0
                &&& domain_fault(texts(domains@)) is None
                &&& base_domains(hosts) == texts(domains@)
                &&& forall|i: int|
                    0 <= i < domains@.len() ==> is_valid_domain(#[trigger] texts(domains@)[i])
            },
            Err(HostError::ZeroDomains) => domains@.len() == 0,
            Err(error) => domain_fault(texts(domains@)) == Some(error),
        },
{
    s3s::host::MultiDomain::new(domains).map_err(|error| match error {
        s3s::host::DomainError::InvalidDomain => HostError::InvalidDomain,
        s3s::host::DomainError::OverlappingSubdomains => HostError::OverlappingSubdomains,
        s3s::host::DomainError::ZeroDomains => HostError::ZeroDomains,
    })
}

impl HostError {
    /// The error in words.
    pub open spec fn spec_message(self) -> Seq<char> {
        match self {
            HostError::InvalidDomain => "The domain is invalid"@,
            HostError::OverlappingSubdomains => "Some subdomains overlap with each other"@,
            HostError::ZeroDomains => "No base domains are specified"@,
        }
    }

    /// The error in words.
    pub fn message(&self) -> (r: String)
        ensures
            r@ == self.spec_message(),
    {
        match self {
            HostError::InvalidDomain => "The domain is invalid".to_owned(),
            HostError::OverlappingSubdomains => "Some subdomains overlap with each other".to_owned(),
            HostError::ZeroDomains => "No base domains are specified".to_owned(),
        }
    }
}

/// The domains for virtual-hosted-style requests. Without any such requests are
/// not served, which is no error.
pub fn configure_host(server_domains: &Vec<String>) -> (r: Result<
    Option<s3s::host::MultiDomain>,
    HostError,
>)
    ensures
        match r {
            Ok(None) => server_domains@.len() == 0,
            Ok(Some(hosts)) => {
                &&& server_domains@.len() > 0
                &&& domain_fault(texts(server_domains@)) is None
                &&& base_domains(hosts) == texts(server_domains@)
            },
            Err(error) => {
                &&& server_domains@.len() > 0
                &&& domain_fault(texts(server_domains@)) == Some(error)
            },
        },
{
    if server_domains.len() == 0 {
        return Ok(None);
    }
    match multi_domain(server_domains) {
        Ok(hosts) => Ok(Some(hosts)),
        Err(error) => Err(error),
    }
}

/// Whether each of the domains is the name of one.
pub open spec fn all_valid(domains: Seq<Seq<char>>) -> bool {
    forall|i: int| 0 <= i < domains.len() ==> is_valid_domain(#[trigger] domains[i])
}

/// Whether none of the domains ends with another.
pub open spec fn all_apart(domains: Seq<Seq<char>>) -> bool {
    forall|i: int, j: int| 0 <= i < j < domains.len() ==> !(#[trigger] overlap(domains, i, j))
}

/// A list of domains is accepted just when each of them is the name of a domain
/// and none ends with another.
pub proof fn law_accepted_domains_are_apart(domains: Seq<Seq<char>>)
    ensures
        domain_fault(domains) is None <==> all_valid(domains) && all_apart(domains),
    decreases domains.len(),
{
    if domains.len() > 0 {
        let earlier = domains.drop_last();
        law_accepted_domains_are_apart(earlier);
        if domain_fault(domains) is None {
            assert forall|i: int| 0 <= i < domains.len() implies is_valid_domain(
                #[trigger] domains[i],
            ) by {
                assert(i < earlier.len() ==> is_valid_domain(earlier[i]));
            }
            assert forall|i: int, j: int| 0 <= i < j < domains.len() implies !(
            #[trigger] overlap(domains, i, j)) by {
                assert(j < earlier.len() ==> !overlap(earlier, i, j));
            }
        } else if !all_valid(earlier) {
            let i = choose|i: int|
                0 <= i < earlier.len() && !is_valid_domain(#[trigger] earlier[i]);
            assert(!is_valid_domain(domains[i]));
        } else if !all_apart(earlier) {
            let (i, j) = choose|i: int, j: int|
                0 <= i < j < earlier.len() && #[trigger] overlap(earlier, i, j);
            assert(overlap(domains, i, j));
        } else {
            assert(domains.last() == domains[domains.len() - 1]);
        }
    }
}

/// The first domain at fault decides, whatever follows it.
pub proof fn law_first_fault_decides(domains: Seq<Seq<char>>, more: Seq<Seq<char>>)
    requires
        domain_fault(domains) is Some,
    ensures
        domain_fault(domains + more) == domain_fault(domains),
    decreases more.len(),
{
    if more.len() == 0 {
        assert(domains + more == domains);
    } else {
        law_first_fault_decides(domains, more.drop_last());
        assert((domains + more).drop_last() == domains + more.drop_last());
    }
}

/// A list is never refused as empty that holds a domain.
pub proof fn law_domains_are_not_missing(domains: Seq<Seq<char>>)
    ensures
        domain_fault(domains) != Some(HostError::ZeroDomains),
    decreases domains.len(),
{
    if domains.len() > 0 {
        law_domains_are_not_missing(domains.drop_last());
    }
}

/// A list without a fault gets one by another domain just when that is not the name
/// of one, or when it ends with a domain of the list or the other way round.
pub proof fn law_next_domain_decides(domains: Seq<Seq<char>>, next: Seq<char>)
    requires
        domain_fault(domains) is None,
    ensures
        domain_fault(domains.push(next)) == Some(HostError::InvalidDomain) <==> !is_valid_domain(
            next,
        ),
        domain_fault(domains.push(next)) == Some(HostError::OverlappingSubdomains)
            <==> is_valid_domain(next) && exists|i: int|
            0 <= i < domains.len() && (next.is_suffix_of(#[trigger] domains[i])
                || domains[i].is_suffix_of(next)),
        domain_fault(domains.push(next)) is None || domain_fault(domains.push(next)) == Some(
            HostError::InvalidDomain,
        ) || domain_fault(domains.push(next)) == Some(HostError::OverlappingSubdomains),
{
    let all = domains.push(next);
    assert(all.drop_last() == domains);
    if last_overlaps(all) {
        let i = choose|i: int| 0 <= i < all.len() - 1 && #[trigger] overlap(all, i, all.len() - 1);
        assert(all[i] == domains[i]);
    }
    if exists|i: int|
        0 <= i < domains.len() && (next.is_suffix_of(#[trigger] domains[i])
            || domains[i].is_suffix_of(next)) {
        let i = choose|i: int|
            0 <= i < domains.len() && (next.is_suffix_of(#[trigger] domains[i])
                || domains[i].is_suffix_of(next));
        assert(all[i] == domains[i]);
        assert(overlap(all, i, all.len() - 1));
    }
}

/// The texts of some strings are their characters, each in its place; an empty list
/// has no fault of its own.
pub proof fn law_texts_keep_characters(strings: Seq<String>, i: int)
    ensures
        texts(strings).len() == strings.len(),
        0 <= i < strings.len() ==> texts(strings)[i] == strings[i]@,
        domain_fault(Seq::empty()) is None,
{
}

} // verus!
