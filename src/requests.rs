//! Pages retrieved from the monitored dashboards, and the requests that
//! retrieve them.
use http_auth_basic::Credentials;
use vstd::prelude::*;

verus! {

/// The body of one retrieved page and the address it came from.
pub struct Page {
    pub url: String,
    pub html: String,
}

/// One page to retrieve: its source key, its address, the value of its
/// `Authorization` header, and whether it asks for JSON content.
pub struct PageRequest {
    pub key: String,
    pub url: String,
    pub authorization: String,
    pub json_content: bool,
}

/// Base64 encoding of `user:password`, as HTTP Basic authentication sends it.
pub uninterp spec fn basic_credentials(user: Seq<char>, password: Seq<char>) -> Seq<char>;

/// Relies on http_auth_basic's `Credentials::new` and
/// `Credentials::as_http_header`: `Basic ` followed by the encoded
/// credentials.
#[verifier::external_body]
fn basic_authorization(user: &str, password: &str) -> (r: String)
    ensures
        r@ == "Basic "@ + basic_credentials(user@, password@),
{
    Credentials::new(user, password).as_http_header()
}

/// The worker-queue dashboard takes HTTP Basic credentials; every other
/// source takes the API token.
pub open spec fn uses_basic_auth(key: Seq<char>) -> bool {
    key == "celery"@
}

/// The `Authorization` value for `key`. The API token is sent as
/// configured: it carries its own scheme (for instance `Bearer ...`), so
/// the dashboards may use whichever token scheme they accept.
pub open spec fn authorization_for(key: Seq<char>, api_token: Seq<char>, user: Seq<char>, password: Seq<char>) -> Seq<
    char,
> {
    if uses_basic_auth(key) {
        "Basic "@ + basic_credentials(user, password)
    } else {
        api_token
    }
}

/// The request for the source `key` at `url`.
pub open spec fn request_matches(
    r: PageRequest,
    key: Seq<char>,
    url: Seq<char>,
    api_token: Seq<char>,
    user: Seq<char>,
    password: Seq<char>,
) -> bool {
    &&& r.key@ == key
    &&& r.url@ == url
    &&& r.authorization@ == authorization_for(key, api_token, user, password)
    &&& r.json_content == uses_basic_auth(key)
}

/// Plans one request per source `(key, url)`, in order; none in test mode,
/// where canned data stand in for the pages. The API token goes out as
/// configured, scheme included.
pub fn plan_requests(
    urls: &Vec<(String, String)>,
    api_token: &str,
    celery_username: &str,
    celery_password: &str,
    is_test_mode: bool,
) -> (r: Vec<PageRequest>)
    ensures
        is_test_mode ==> r@.len() == 0,
        !is_test_mode ==> r@.len() == urls@.len(),
        !is_test_mode ==> forall|i: int|
            0 <= i < urls@.len() ==> request_matches(
                #[trigger] r@[i],
                urls@[i].0@,
                urls@[i].1@,
                api_token@,
                celery_username@,
                celery_password@,
            ),
{
    let mut r: Vec<PageRequest> = Vec::new();
    if is_test_mode {
        return r;
    }
    let celery = String::from_str("celery");
    let mut i: usize = 0;
    while i < urls.len()
        invariant
            i <= urls.len(),
            celery@ == "celery"@,
            r@.len() == i,
            forall|k: int|
                0 <= k < i ==> request_matches(
                    #[trigger] r@[k],
                    urls@[k].0@,
                    urls@[k].1@,
                    api_token@,
                    celery_username@,
                    celery_password@,
                ),
        decreases urls.len() - i,
    {
        let key = &urls[i].0;
        let basic = *key == celery;
        let authorization = if basic {
            basic_authorization(celery_username, celery_password)
        } else {
            String::from_str(api_token)
        };
        r.push(PageRequest { key: key.clone(), url: urls[i].1.clone(), authorization, json_content: basic });
        i = i + 1;
    }
    r
}

} // verus!
