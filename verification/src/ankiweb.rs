use vstd::prelude::*;
use vstd::string::*;

verus! {

/// The address of an AnkiWeb service.
pub open spec fn service_url_spec(service: Seq<char>) -> Seq<char> {
    "https://ankiweb.net/svc/"@ + service
}

/// Returns the URL at which the AnkiWeb service `service` is reached.
pub fn service_url(service: &str) -> (url: String)
    ensures
        url@ == service_url_spec(service@),
{
    let mut url = String::from_str("https://ankiweb.net/svc/");
    url.append(service);
    url
}

} // verus!
