//! How the event bus connects to NATS: which server addresses are
//! used, which credentials and certificates the environment supplies,
//! and whether TLS is required.
use vstd::prelude::*;
use crate::error::{ErrorValue, SpectreError};
use crate::events::EventBusConfig;
use crate::text::{has_prefix, starts_with, trimmed, trim_end, trim_start};

verus! {

/// Whether `async_nats` accepts `url` as a server address (`ServerAddr`
/// parsing: a URL, with `nats://` assumed when no scheme is given, whose
/// scheme is nats, tls, ws or wss).
pub uninterp spec fn nats_url_accepted(url: Seq<char>) -> bool;

/// `<async_nats::ServerAddr as FromStr>::from_str`, reduced to whether
/// it succeeded. Claimed: the answer is [`nats_url_accepted`] of the text.
#[verifier::external_body]
fn parses_as_server_addr(url: &str) -> (r: bool)
    ensures
        r == nats_url_accepted(url@),
{
    url.parse::<async_nats::ServerAddr>().is_ok()
}

/// The environment variables that shape a NATS connection; each is
/// `None` when unset (or not valid Unicode).
#[derive(Debug, Clone)]
pub struct NatsEnv {
    /// `NATS_NKEY_SEED`
    pub nkey_seed: Option<String>,
    /// `NATS_NKEY_SEED_FILE`
    pub nkey_seed_file: Option<String>,
    /// `NATS_CA_FILE`
    pub ca_file: Option<String>,
    /// `NATS_CLIENT_CERT_FILE`
    pub client_cert_file: Option<String>,
    /// `NATS_CLIENT_KEY_FILE`
    pub client_key_file: Option<String>,
}

/// Where the NKey seed comes from.
#[derive(Debug, Clone)]
pub enum NkeySource {
    /// The seed itself.
    Seed(String),
    /// A file whose first line that is neither blank nor a `#` comment
    /// holds the seed.
    File(String),
}

/// Everything the connection needs beyond the configuration itself.
#[derive(Debug, Clone)]
pub struct ConnectPlan {
    /// The configured URLs that parse as server addresses, in order.
    pub urls: Vec<String>,
    /// Connection name
    pub name: String,
    /// Most reconnect attempts allowed (as configured).
    pub max_reconnects: u32,
    pub nkey: Option<NkeySource>,
    /// CA file to add to the root certificates.
    pub root_certificates: Option<String>,
    /// Client certificate and key files.
    pub client_certificate: Option<(String, String)>,
    /// Whether TLS is required (some configured URL uses `tls://`).
    pub require_tls: bool,
}

/// The trimmed text of `o` when it is present and not blank.
pub open spec fn nonblank(o: Option<String>) -> Option<Seq<char>> {
    match o {
        Some(s) => if trimmed(s@).len() > 0 { Some(trimmed(s@)) } else { None },
        None => None,
    }
}

fn nonblank_exec(o: &Option<String>) -> (r: Option<String>)
    ensures
        match (r, nonblank(*o)) {
            (Some(s), Some(t)) => s@ == t,
            (None, None) => true,
            _ => false,
        },
{
    match o {
        Some(s) => {
            let t = s.as_str().trim().to_owned();
            if t.as_str().is_empty() {
                None
            } else {
                Some(t)
            }
        },
        None => None,
    }
}

/// The characters of each URL.
pub open spec fn url_texts(urls: Seq<String>) -> Seq<Seq<char>> {
    urls.map_values(|u: String| u@)
}

/// The URLs async-nats accepts, in order.
pub open spec fn accepted_urls(urls: Seq<String>) -> Seq<Seq<char>> {
    url_texts(urls).filter(|u: Seq<char>| nats_url_accepted(u))
}

/// Some URL asks for TLS.
pub open spec fn any_tls(urls: Seq<String>) -> bool {
    exists|i: int| 0 <= i < urls.len() && starts_with(#[trigger] urls[i]@, "tls://"@)
}

/// The connection plan for `config` in the environment `env` is `p`.
pub open spec fn plans(config: EventBusConfig, env: NatsEnv, p: ConnectPlan) -> bool {
    &&& url_texts(p.urls@) == accepted_urls(config.urls@)
    &&& p.name@ == config.name@
    &&& p.max_reconnects == config.max_reconnects
    &&& match (p.nkey, nonblank(env.nkey_seed)) {
        (Some(NkeySource::Seed(s)), Some(t)) => s@ == t,
        (Some(NkeySource::File(f)), None) => nonblank(env.nkey_seed_file) == Some(f@),
        (None, None) => nonblank(env.nkey_seed_file) is None,
        _ => false,
    }
    &&& match p.root_certificates {
        Some(f) => nonblank(env.ca_file) == Some(f@),
        None => nonblank(env.ca_file) is None,
    }
    &&& match p.client_certificate {
        Some((c, k)) => env.client_cert_file is Some && env.client_key_file is Some
            && nonblank(env.client_cert_file) == Some(c@) && nonblank(env.client_key_file) == Some(k@),
        None => !(nonblank(env.client_cert_file) is Some && nonblank(env.client_key_file) is Some),
    }
    &&& p.require_tls == any_tls(config.urls@)
}

/// Decides how to connect: keeps the URLs that parse as server
/// addresses (failing when none does), picks the NKey seed (the
/// variable, else the seed file), the CA file and the client
/// certificate pair (blank values count as unset), and requires TLS
/// when any URL uses `tls://`.
pub fn plan_connection(config: &EventBusConfig, env: &NatsEnv) -> (r: Result<ConnectPlan, SpectreError>)
    ensures
        match r {
            Ok(p) => plans(*config, *env, p) && p.urls@.len() > 0 && (p.require_tls <==> exists|k: int|
                0 <= k < config.urls@.len() && starts_with(#[trigger] config.urls@[k]@, "tls://"@)),
            Err(e) => accepted_urls(config.urls@).len() == 0
                && e@ == ErrorValue::EventBus("No valid NATS URLs provided"@),
        },
{
    let mut urls: Vec<String> = Vec::new();
    let mut require_tls = false;
    let n = config.urls.len();
    let mut i: usize = 0;
    while i < n
        invariant
            n == config.urls@.len(),
            i <= n,
            url_texts(urls@) == url_texts(config.urls@.take(i as int)).filter(
                |u: Seq<char>| nats_url_accepted(u),
            ),
            require_tls == exists|j: int| 0 <= j < i && starts_with(#[trigger] config.urls@[j]@, "tls://"@),
        decreases n - i,
    {
        let u = &config.urls[i];
        proof {
            reveal_with_fuel(Seq::filter, 1);
            assert(url_texts(config.urls@.take(i + 1)).drop_last() =~= url_texts(config.urls@.take(i as int)));
            assert(url_texts(config.urls@.take(i + 1)).last() == u@);
        }
        if parses_as_server_addr(u.as_str()) {
            urls.push(u.clone());
            assert(url_texts(urls@) =~= url_texts(urls@).drop_last().push(u@));
        }
        if has_prefix(u.as_str(), "tls://") {
            require_tls = true;
        }
        i = i + 1;
    }
    proof {
        assert(config.urls@.take(n as int) =~= config.urls@);
    }
    if urls.len() == 0 {
        return Err(SpectreError::event_bus("No valid NATS URLs provided"));
    }
    let nkey = match nonblank_exec(&env.nkey_seed) {
        Some(seed) => Some(NkeySource::Seed(seed)),
        None => match nonblank_exec(&env.nkey_seed_file) {
            Some(path) => Some(NkeySource::File(path)),
            None => None,
        },
    };
    let root_certificates = nonblank_exec(&env.ca_file);
    let client_certificate = match (&env.client_cert_file, &env.client_key_file) {
        (Some(_), Some(_)) => match (nonblank_exec(&env.client_cert_file), nonblank_exec(&env.client_key_file)) {
            (Some(c), Some(k)) => Some((c, k)),
            _ => None,
        },
        _ => None,
    };
    Ok(ConnectPlan {
        urls,
        name: config.name.clone(),
        max_reconnects: config.max_reconnects,
        nkey,
        root_certificates,
        client_certificate,
        require_tls,
    })
}

/// TLS is required exactly when some configured URL, wherever it stands
/// in the list, starts with `tls://`: one such URL is enough, and with
/// none TLS is not required.
pub proof fn tls_required_by_any_url(config: EventBusConfig, env: NatsEnv, p: ConnectPlan)
    requires
        plans(config, env, p),
    ensures
        forall|k: int| 0 <= k < config.urls@.len() && starts_with(#[trigger] config.urls@[k]@, "tls://"@)
            ==> p.require_tls,
        p.require_tls ==> exists|k: int|
            0 <= k < config.urls@.len() && starts_with(#[trigger] config.urls@[k]@, "tls://"@),
{
}

/// The error of a request that got no reply within `timeout_secs`
/// seconds: a timeout of the operation "request to <subject>".
pub fn request_timeout_error(subject: &str, timeout_secs: u64) -> (r: SpectreError)
    ensures
        r@ == (ErrorValue::Timeout { operation: "request to "@ + subject@, seconds: timeout_secs }),
{
    let mut operation = String::from_str("request to ");
    operation.append(subject);
    SpectreError::Timeout { operation, seconds: timeout_secs }
}

/// The position of the first line feed in `s` at or after `from`.
pub open spec fn newline_at(s: Seq<char>, from: nat) -> Option<nat>
    decreases s.len() - from,
{
    if from >= s.len() {
        None
    } else if s[from as int] == '\n' {
        Some(from)
    } else {
        newline_at(s, from + 1)
    }
}

pub proof fn lemma_newline_bound(s: Seq<char>, from: nat)
    ensures
        newline_at(s, from) matches Some(i) ==> from <= i < s.len(),
    decreases s.len() - from,
{
    if from < s.len() && s[from as int] != '\n' {
        lemma_newline_bound(s, from + 1);
    }
}

/// A line without the carriage return that ends it, if any.
pub open spec fn strip_cr(l: Seq<char>) -> Seq<char> {
    if l.len() > 0 && l.last() == '\r' {
        l.drop_last()
    } else {
        l
    }
}

/// The lines of a text, as `str::lines` yields them: split at line
/// feeds, a carriage return before a line feed dropped, and no empty
/// line after a final line feed.
pub open spec fn text_lines(s: Seq<char>) -> Seq<Seq<char>>
    decreases s.len(),
{
    if s.len() == 0 {
        Seq::empty()
    } else {
        proof { lemma_newline_bound(s, 0); }
        match newline_at(s, 0) {
            Some(i) => seq![strip_cr(s.take(i as int))] + text_lines(s.skip(i + 1 as int)),
            None => seq![s],
        }
    }
}

/// A line that holds a seed: not blank, and not a `#` comment.
pub open spec fn is_seed_line(l: Seq<char>) -> bool {
    !starts_with(trim_start(l), "#"@) && trimmed(l).len() > 0
}

/// The trimmed first seed line among `ls`.
pub open spec fn first_seed(ls: Seq<Seq<char>>) -> Option<Seq<char>>
    decreases ls.len(),
{
    if ls.len() == 0 {
        None
    } else if is_seed_line(ls[0]) {
        Some(trimmed(ls[0]))
    } else {
        first_seed(ls.drop_first())
    }
}

proof fn lemma_trim_end_first(x: Seq<char>)
    requires
        trim_end(x).len() > 0,
    ensures
        trim_end(x)[0] == x[0],
        trim_end(x).len() <= x.len(),
    decreases x.len(),
{
    if x.len() > 0 && crate::text::is_white_space(x.last()) {
        lemma_trim_end_first(x.drop_last());
    }
}

proof fn lemma_seed_line(l: Seq<char>)
    ensures
        is_seed_line(l) <==> (trimmed(l).len() > 0 && trimmed(l)[0] != '#'),
{
    reveal_strlit("#");
    let ts = trim_start(l);
    if trimmed(l).len() > 0 {
        lemma_trim_end_first(ts);
        assert(ts.len() >= 1);
        assert("#"@ =~= seq!['#']);
        if ts[0] == '#' {
            assert(ts.subrange(0, 1) =~= seq!['#']);
        } else {
            assert(ts.subrange(0, 1)[0] != '#');
        }
    }
}

proof fn lemma_newline_at(s: Seq<char>, from: nat, j: nat)
    requires
        from <= j < s.len(),
        s[j as int] == '\n',
        forall|k: int| from <= k < j ==> s[k] != '\n',
    ensures
        newline_at(s, from) == Some(j),
    decreases j - from,
{
    if from < j {
        lemma_newline_at(s, from + 1, j);
    }
}

proof fn lemma_no_newline(s: Seq<char>, from: nat)
    requires
        forall|k: int| from <= k < s.len() ==> s[k] != '\n',
    ensures
        newline_at(s, from) is None,
    decreases s.len() - from,
{
    if from < s.len() {
        lemma_no_newline(s, from + 1);
    }
}

/// Whether a line holds a seed, and the trimmed seed.
fn seed_of_line(line: &str) -> (r: Option<String>)
    ensures
        match r {
            Some(t) => is_seed_line(line@) && t@ == trimmed(line@),
            None => !is_seed_line(line@),
        },
{
    proof { lemma_seed_line(line@); }
    let t = line.trim().to_owned();
    if t.as_str().is_empty() {
        return None;
    }
    if t.as_str().get_char(0) == '#' {
        return None;
    }
    Some(t)
}

/// The NKey seed held by the contents of a seed file: its first line
/// that is neither blank nor a `#` comment, trimmed.
pub fn seed_from_file(contents: &str) -> (r: Option<String>)
    ensures
        match (r, first_seed(text_lines(contents@))) {
            (Some(s), Some(t)) => s@ == t,
            (None, None) => true,
            _ => false,
        },
{
    let ghost s = contents@;
    let n = contents.unicode_len();
    let mut start: usize = 0;
    let mut j: usize = 0;
    assert(s.skip(0) =~= s);
    while j < n
        invariant
            n == s.len(),
            s == contents@,
            start <= j <= n,
            forall|k: int| start <= k < j ==> s[k] != '\n',
            first_seed(text_lines(s)) == first_seed(text_lines(s.skip(start as int))),
        decreases n - j,
    {
        if contents.get_char(j) == '\n' {
            let ghost rest = s.skip(start as int);
            proof {
                lemma_newline_at(rest, 0, (j - start) as nat);
                assert(rest.take((j - start) as int) =~= s.subrange(start as int, j as int));
                assert(rest.skip((j - start + 1) as int) =~= s.skip(j + 1));
                let ls = text_lines(rest);
                assert(ls == seq![strip_cr(s.subrange(start as int, j as int))] + text_lines(s.skip(j + 1)));
                assert(ls[0] == strip_cr(s.subrange(start as int, j as int)));
                assert(ls.drop_first() =~= text_lines(s.skip(j + 1)));
            }
            let mut line = contents.substring_char(start, j);
            let len = line.unicode_len();
            if len > 0 && line.get_char(len - 1) == '\r' {
                line = line.substring_char(0, len - 1);
            }
            proof {
                assert(line@ =~= strip_cr(s.subrange(start as int, j as int)));
            }
            match seed_of_line(line) {
                Some(t) => {
                    return Some(t);
                },
                None => {},
            }
            start = j + 1;
        }
        j = j + 1;
    }
    let ghost rest = s.skip(start as int);
    if start < n {
        proof {
            lemma_no_newline(rest, 0);
            assert(text_lines(rest) == seq![rest]);
            assert(seq![rest][0] == rest);
            assert(seq![rest].drop_first() =~= Seq::<Seq<char>>::empty());
            assert(first_seed(Seq::<Seq<char>>::empty()) is None);
        }
        let line = contents.substring_char(start, n);
        proof {
            assert(line@ =~= rest);
        }
        seed_of_line(line)
    } else {
        proof {
            assert(rest.len() == 0);
            assert(text_lines(rest) == Seq::<Seq<char>>::empty());
        }
        None
    }
}

} // verus!
