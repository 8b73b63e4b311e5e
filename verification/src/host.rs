//! Classification of a request's target host into a backoff policy.

use vstd::prelude::*;

verus! {

/// The backoff policy that a request falls under, fixed by its target domain.
#[derive(Debug, Clone, Copy, PartialEq, Eq, Structural)]
pub enum HostType {
    Twitch,
    Google,
    Youtube,
    Other,
}

/// The policy of a domain name: an exact match against the three known
/// domains, and `Other` for every other name and for a missing one.
pub open spec fn policy_of(domain: Option<Seq<char>>) -> HostType {
    match domain {
        Some(name) => if name == "twitch.tv"@ {
            HostType::Twitch
        } else if name == "google.com"@ {
            HostType::Google
        } else if name == "youtube.com"@ {
            HostType::Youtube
        } else {
            HostType::Other
        },
        None => HostType::Other,
    }
}

/// Whether a domain name is one of the three that have a policy of their own.
pub open spec fn is_known_domain(name: Seq<char>) -> bool {
    name == "twitch.tv"@ || name == "google.com"@ || name == "youtube.com"@
}

/// The domain name that the `url` crate finds in a URL: `Some` where the text
/// parses as a URL whose host is a domain name, `None` where it does not parse,
/// has no host, or has an IP address for a host.
pub uninterp spec fn url_domain(url: Seq<char>) -> Option<Seq<char>>;

/// The view of an optional string.
pub open spec fn text_of(value: Option<String>) -> Option<Seq<char>> {
    match value {
        Some(text) => Some(text@),
        None => None,
    }
}

/// Calls `url::Url::parse` and then `url::Url::host` on the parsed URL. The
/// contract only names the outcome: the domain handed back is the one the
/// crate reports for this text, and nothing is claimed about which texts have
/// one.
#[verifier::external_body]
fn parse_domain(url: &str) -> (domain: Option<String>)
    ensures
        text_of(domain) == url_domain(url@),
{
    match url::Url::parse(url) {
        Ok(parsed) => match parsed.host() {
            Some(url::Host::Domain(name)) => Some(name.to_string()),
            Some(url::Host::Ipv4(_)) => None,
            Some(url::Host::Ipv6(_)) => None,
            None => None,
        },
        Err(_) => None,
    }
}

/// Classifies a domain name, or the absence of one.
pub fn classify_domain(domain: Option<&str>) -> (host: HostType)
    ensures
        host == policy_of(
            match domain {
                Some(name) => Some(name@),
                None => None,
            },
        ),
{
    match domain {
        Some(name) => {
            let name: String = name.to_owned();
            if name == "twitch.tv".to_owned() {
                HostType::Twitch
            } else if name == "google.com".to_owned() {
                HostType::Google
            } else if name == "youtube.com".to_owned() {
                HostType::Youtube
            } else {
                HostType::Other
            }
        },
        None => HostType::Other,
    }
}

/// Classifies the target of a request, given as the text of its URL.
pub fn get_host_from_request(url: &str) -> (host: HostType)
    ensures
        host == policy_of(url_domain(url@)),
{
    match parse_domain(url) {
        Some(name) => classify_domain(Some(name.as_str())),
        None => classify_domain(None),
    }
}

} // verus!
