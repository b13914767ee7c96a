//! The client's configuration: API keys in the order they are tried, the API
//! base URL, the polling interval, the wait limit, the retry limit and the
//! optional cap on downloaded items.

use vstd::prelude::*;

use crate::text::{append, debug_quote, debug_quoted, decimal, decimal_text, owned};
use crate::time::{duration_debug, TimeSpan};
use crate::validate::{is_secure_base, is_secure_url, trim_slashes, trim_trailing_slashes};

verus! {

/// The JSON input passed to an actor. Its shape depends entirely on the
/// target actor.
#[derive(Debug, Clone)]
pub struct RunInput(pub serde_json::Value);

impl RunInput {
    /// Wraps a JSON document as actor input.
    pub fn new(v: serde_json::Value) -> (r: RunInput)
        ensures
            r.0 == v,
    {
        RunInput(v)
    }
}

/// The Apify client: the ordered list of API keys and the settings that
/// govern requests, polling and downloads. It has no `Debug`, which would
/// print the keys: `debug_string` renders it with the keys redacted.
pub struct ApifyClient {
    api_keys: Vec<String>,
    api_base: String,
    poll_interval: TimeSpan,
    max_wait: TimeSpan,
    max_retries: u32,
    max_items: Option<usize>,
}

/// The model of an `ApifyClient`.
pub struct ClientView {
    /// The API keys, in the order they are tried.
    pub api_keys: Seq<Seq<char>>,
    /// The base URL every request goes to.
    pub api_base: Seq<char>,
    /// How long to wait between two polls of a run.
    pub poll_interval: TimeSpan,
    /// How long polling, and separately downloading, may take.
    pub max_wait: TimeSpan,
    /// How many times a request is retried after a transient failure.
    pub max_retries: u32,
    /// The cap on downloaded dataset items, if any.
    pub max_items: Option<usize>,
}

impl View for ApifyClient {
    type V = ClientView;

    closed spec fn view(&self) -> ClientView {
        ClientView {
            api_keys: self.api_keys.deep_view(),
            api_base: self.api_base@,
            poll_interval: self.poll_interval,
            max_wait: self.max_wait,
            max_retries: self.max_retries,
            max_items: self.max_items,
        }
    }
}

impl Clone for ApifyClient {
    fn clone(&self) -> (r: ApifyClient)
        ensures
            r@ == self@,
    {
        proof {
            use_type_invariant(self);
        }
        let keys = self.api_keys.clone();
        proof {
            assert forall|i: int| 0 <= i < keys@.len() implies keys@[i] == self.api_keys@[i] by {
                assert(cloned::<String>(self.api_keys[i], keys[i]));
            }
            assert(keys@ =~= self.api_keys@);
        }
        ApifyClient {
            api_keys: keys,
            api_base: self.api_base.clone(),
            poll_interval: self.poll_interval,
            max_wait: self.max_wait,
            max_retries: self.max_retries,
            max_items: self.max_items,
        }
    }
}

/// The base URL a new client uses.
pub open spec fn default_api_base() -> Seq<char> {
    "https://api.apify.com/v2"@
}

/// `s` ends with a slash.
pub open spec fn ends_with_slash(s: Seq<char>) -> bool {
    s.len() > 0 && s.last() == '/'
}

/// A base URL a client may hold: safe for credentials, and with no trailing
/// slash, so that appending a path never gives `//`.
pub open spec fn is_usable_base(s: Seq<char>) -> bool {
    is_secure_url(s) && !ends_with_slash(s)
}

/// The nanoseconds in `secs` seconds.
pub open spec fn secs_nanos(secs: nat) -> nat {
    secs * 1_000_000_000
}

/// The text `format!("{:?}", client)` gives for a client with model `v`: the
/// keys appear only through their number.
pub open spec fn client_debug_text(v: ClientView) -> Seq<char> {
    "ApifyClient { api_keys: ["@ + decimal(v.api_keys.len()) + " key(s) redacted], api_base: "@
        + debug_quoted(v.api_base) + ", poll_interval: "@ + duration_debug(
        v.poll_interval.spec_secs(),
        v.poll_interval.spec_subsec_nanos(),
    ) + ", max_wait: "@ + duration_debug(v.max_wait.spec_secs(), v.max_wait.spec_subsec_nanos())
        + ", max_retries: "@ + decimal(v.max_retries as nat) + ", max_items: "@ + match v.max_items {
        None => "None"@,
        Some(n) => "Some("@ + decimal(n as nat) + ")"@,
    } + " }"@
}

/// Trimming trailing slashes leaves none.
pub proof fn lemma_trimmed_has_no_trailing_slash(s: Seq<char>)
    ensures
        !ends_with_slash(trim_slashes(s)),
    decreases s.len(),
{
    if s.len() > 0 && s.last() == '/' {
        lemma_trimmed_has_no_trailing_slash(s.drop_last());
    }
}

impl ApifyClient {
    #[verifier::type_invariant]
    spec fn base_is_usable(self) -> bool {
        is_usable_base(self.api_base@)
    }

    /// Builds a client with the given API keys, tried in order, and the
    /// defaults: the public Apify API, a 20 s polling interval, a one-hour
    /// wait limit, 3 retries and no cap on downloaded items.
    pub fn new(api_keys: Vec<String>) -> (r: ApifyClient)
        ensures
            r@.api_keys == api_keys.deep_view(),
            r@.api_base == default_api_base(),
            r@.poll_interval@ == secs_nanos(20),
            r@.max_wait@ == secs_nanos(3600),
            r@.max_retries == 3,
            r@.max_items is None,
    {
        proof {
            reveal_strlit("https://api.apify.com/v2");
            reveal_strlit("https://");
            assert("https://api.apify.com/v2"@.subrange(0, 8) =~= "https://"@);
        }
        ApifyClient {
            api_keys,
            api_base: owned("https://api.apify.com/v2"),
            poll_interval: TimeSpan::from_secs(20),
            max_wait: TimeSpan::from_secs(60 * 60),
            max_retries: 3,
            max_items: None,
        }
    }

    /// Sets the polling interval (default 20 s).
    pub fn poll_interval(self, d: TimeSpan) -> (r: ApifyClient)
        ensures
            r@ == (ClientView { poll_interval: d, ..self@ }),
    {
        proof {
            use_type_invariant(&self);
        }
        ApifyClient { poll_interval: d, ..self }
    }

    /// Sets how long waiting for a run to finish, and separately downloading
    /// its dataset, may take (default one hour).
    pub fn max_wait(self, d: TimeSpan) -> (r: ApifyClient)
        ensures
            r@ == (ClientView { max_wait: d, ..self@ }),
    {
        proof {
            use_type_invariant(&self);
        }
        ApifyClient { max_wait: d, ..self }
    }

    /// Sets how many times a transient failure (429, 5xx, network error) is
    /// retried (default 3; 0 disables retries).
    pub fn max_retries(self, n: u32) -> (r: ApifyClient)
        ensures
            r@ == (ClientView { max_retries: n, ..self@ }),
    {
        proof {
            use_type_invariant(&self);
        }
        ApifyClient { max_retries: n, ..self }
    }

    /// Caps the number of dataset items downloaded (default: no cap).
    pub fn max_items(self, n: usize) -> (r: ApifyClient)
        ensures
            r@ == (ClientView { max_items: Some(n), ..self@ }),
    {
        proof {
            use_type_invariant(&self);
        }
        ApifyClient { max_items: Some(n), ..self }
    }

    /// Sets the API base URL. Trailing slashes are removed; a base that is
    /// then neither HTTPS nor plain HTTP to `localhost`/`127.0.0.1` is
    /// refused, and the previous base is kept, since the bearer token would
    /// otherwise travel in plaintext.
    pub fn api_base(self, base: &str) -> (r: ApifyClient)
        ensures
            is_secure_url(trim_slashes(base@)) ==> r@ == (ClientView {
                api_base: trim_slashes(base@),
                ..self@
            }),
            !is_secure_url(trim_slashes(base@)) ==> r@ == self@,
    {
        proof {
            use_type_invariant(&self);
            lemma_trimmed_has_no_trailing_slash(base@);
        }
        let trimmed = trim_trailing_slashes(base);
        if is_secure_base(trimmed.as_str()) {
            ApifyClient { api_base: trimmed, ..self }
        } else {
            self
        }
    }

    /// The API keys, in the order they are tried.
    pub fn get_api_keys(&self) -> (r: &Vec<String>)
        ensures
            r.deep_view() == self@.api_keys,
    {
        &self.api_keys
    }

    /// The API base URL; it is always usable for credentials.
    pub fn get_api_base(&self) -> (r: &str)
        ensures
            r@ == self@.api_base,
            is_usable_base(r@),
    {
        proof {
            use_type_invariant(self);
        }
        self.api_base.as_str()
    }

    /// The polling interval.
    pub fn get_poll_interval(&self) -> (r: TimeSpan)
        ensures
            r == self@.poll_interval,
    {
        self.poll_interval
    }

    /// The wait limit.
    pub fn get_max_wait(&self) -> (r: TimeSpan)
        ensures
            r == self@.max_wait,
    {
        self.max_wait
    }

    /// The retry limit.
    pub fn get_max_retries(&self) -> (r: u32)
        ensures
            r == self@.max_retries,
    {
        self.max_retries
    }

    /// The cap on downloaded items, if any.
    pub fn get_max_items(&self) -> (r: Option<usize>)
        ensures
            r == self@.max_items,
    {
        self.max_items
    }

    /// The URL that starts a run of `actor_id`.
    pub fn run_url(&self, actor_id: &str) -> (r: String)
        ensures
            r@ == self@.api_base + "/acts/"@ + actor_id@ + "/runs"@,
    {
        let mut u = self.api_base.clone();
        append(&mut u, "/acts/");
        append(&mut u, actor_id);
        append(&mut u, "/runs");
        u
    }

    /// The text of the client for debugging, as `{:?}` renders it, with the
    /// API keys redacted: only their number appears.
    pub fn debug_string(&self) -> (r: String)
        ensures
            r@ == client_debug_text(self@),
    {
        let mut t = owned("ApifyClient { api_keys: [");
        let n = decimal_text(self.api_keys.len() as u64);
        append(&mut t, n.as_str());
        append(&mut t, " key(s) redacted], api_base: ");
        let b = debug_quote(self.api_base.as_str());
        append(&mut t, b.as_str());
        append(&mut t, ", poll_interval: ");
        let p = self.poll_interval.debug_text();
        append(&mut t, p.as_str());
        append(&mut t, ", max_wait: ");
        let w = self.max_wait.debug_text();
        append(&mut t, w.as_str());
        append(&mut t, ", max_retries: ");
        let m = decimal_text(self.max_retries as u64);
        append(&mut t, m.as_str());
        append(&mut t, ", max_items: ");
        match self.max_items {
            None => append(&mut t, "None"),
            Some(k) => {
                append(&mut t, "Some(");
                let ks = decimal_text(k as u64);
                append(&mut t, ks.as_str());
                append(&mut t, ")");
            },
        }
        append(&mut t, " }");
        proof {
            assert(self.api_keys.deep_view().len() == self.api_keys@.len());
        }
        t
    }
}

} // verus!
