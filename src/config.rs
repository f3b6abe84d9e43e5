use vstd::prelude::*;
use vstd::string::StringExecFns;

verus! {

/// Seconds between two polls when none is configured.
pub const DEFAULT_POLL_SECONDS: u64 = 900;

pub open spec fn log_suffix() -> Seq<char> {
    seq!['.', 'l', 'o', 'g', '.', 't', 'x', 't']
}

pub open spec fn ip_log_suffix() -> Seq<char> {
    seq!['.', 'i', 'p', '_', 'l', 'o', 'g', '.', 't', 'x', 't']
}

pub open spec fn services_key() -> Seq<char> {
    seq![
        'S', 'Y', 'S', 'T', 'E', 'M', '\\', 'C', 'u', 'r', 'r', 'e', 'n', 't', 'C', 'o', 'n', 't', 'r',
        'o', 'l', 'S', 'e', 't', '\\', 'S', 'e', 'r', 'v', 'i', 'c', 'e', 's', '\\',
    ]
}

/// The log path used for a service when none is configured: `<name>.log.txt`.
pub fn default_log_path(service_name: &str) -> (r: String)
    ensures
        r@ == service_name@ + log_suffix(),
{
    let mut r = service_name.to_owned();
    r.append(".log.txt");
    proof {
        reveal_strlit(".log.txt");
    }
    assert(".log.txt"@ =~= log_suffix());
    r
}

/// The path of the address file used for a service when none is configured:
/// `<name>.ip_log.txt`.
pub fn default_ip_log_path(service_name: &str) -> (r: String)
    ensures
        r@ == service_name@ + ip_log_suffix(),
{
    let mut r = service_name.to_owned();
    r.append(".ip_log.txt");
    proof {
        reveal_strlit(".ip_log.txt");
    }
    assert(".ip_log.txt"@ =~= ip_log_suffix());
    r
}

/// The key of the configuration store under which a service's settings live,
/// relative to the local machine's root.
pub fn service_key_path(service_name: &str) -> (r: String)
    ensures
        r@ == services_key() + service_name@,
{
    let mut r = String::from_str("SYSTEM\\CurrentControlSet\\Services\\");
    r.append(service_name);
    proof {
        reveal_strlit("SYSTEM\\CurrentControlSet\\Services\\");
    }
    assert("SYSTEM\\CurrentControlSet\\Services\\"@ =~= services_key());
    r
}

/// What the configuration store holds for one service: each setting is
/// `None` while it has never been written.
pub struct ServiceConfig {
    pub log_path: Option<String>,
    pub ip_log_path: Option<String>,
    pub poll_seconds: Option<u64>,
}

/// The settings of a service, as values.
pub struct ConfigView {
    pub log_path: Option<Seq<char>>,
    pub ip_log_path: Option<Seq<char>>,
    pub poll_seconds: Option<u64>,
}

pub open spec fn text_view(o: Option<String>) -> Option<Seq<char>> {
    match o {
        Some(s) => Some(s@),
        None => None,
    }
}

/// Reading a setting with a default: the stored value if there is one,
/// otherwise the default, which is then stored. Gives the value read and
/// whether the default was written.
pub open spec fn or_default<T>(stored: Option<T>, default: T) -> (T, bool) {
    match stored {
        Some(v) => (v, false),
        None => (default, true),
    }
}

/// The settings after a read with default of the log path, the path read and
/// whether it was written.
pub open spec fn settle_log_path(c: ConfigView, name: Seq<char>) -> (ConfigView, Seq<char>, bool) {
    let (v, w) = or_default(c.log_path, name + log_suffix());
    (ConfigView { log_path: Some(v), ..c }, v, w)
}

pub open spec fn settle_ip_log_path(c: ConfigView, name: Seq<char>) -> (
    ConfigView,
    Seq<char>,
    bool,
) {
    let (v, w) = or_default(c.ip_log_path, name + ip_log_suffix());
    (ConfigView { ip_log_path: Some(v), ..c }, v, w)
}

pub open spec fn settle_poll_seconds(c: ConfigView) -> (ConfigView, u64, bool) {
    let (v, w) = or_default(c.poll_seconds, DEFAULT_POLL_SECONDS);
    (ConfigView { poll_seconds: Some(v), ..c }, v, w)
}

impl View for ServiceConfig {
    type V = ConfigView;

    open spec fn view(&self) -> ConfigView {
        ConfigView {
            log_path: text_view(self.log_path),
            ip_log_path: text_view(self.ip_log_path),
            poll_seconds: self.poll_seconds,
        }
    }
}

fn clone_text(o: &Option<String>) -> (r: Option<String>)
    ensures
        text_view(r) == text_view(*o),
{
    match o {
        Some(s) => Some(s.clone()),
        None => None,
    }
}

impl ServiceConfig {
    /// A service none of whose settings has been written.
    pub fn empty() -> (r: ServiceConfig)
        ensures
            r@ == (ConfigView { log_path: None, ip_log_path: None, poll_seconds: None }),
    {
        ServiceConfig { log_path: None, ip_log_path: None, poll_seconds: None }
    }

    /// The log path, storing `<name>.log.txt` first when none is set. The
    /// flag tells whether that default was written.
    pub fn log_path_or_default(&mut self, service_name: &str) -> (r: (String, bool))
        ensures
            (final(self)@, r.0@, r.1) == settle_log_path(old(self)@, service_name@),
    {
        match &self.log_path {
            Some(p) => {
                let v = p.clone();
                (v, false)
            },
            None => {
                let v = default_log_path(service_name);
                self.log_path = Some(v.clone());
                (v, true)
            },
        }
    }

    /// The address file path, storing `<name>.ip_log.txt` first when none is
    /// set. The flag tells whether that default was written.
    pub fn ip_log_path_or_default(&mut self, service_name: &str) -> (r: (String, bool))
        ensures
            (final(self)@, r.0@, r.1) == settle_ip_log_path(old(self)@, service_name@),
    {
        match &self.ip_log_path {
            Some(p) => {
                let v = p.clone();
                (v, false)
            },
            None => {
                let v = default_ip_log_path(service_name);
                self.ip_log_path = Some(v.clone());
                (v, true)
            },
        }
    }

    /// The poll interval in seconds, storing `DEFAULT_POLL_SECONDS` first
    /// when none is set. The flag tells whether that default was written.
    pub fn poll_seconds_or_default(&mut self) -> (r: (u64, bool))
        ensures
            (final(self)@, r.0, r.1) == settle_poll_seconds(old(self)@),
    {
        match self.poll_seconds {
            Some(p) => (p, false),
            None => {
                self.poll_seconds = Some(DEFAULT_POLL_SECONDS);
                (DEFAULT_POLL_SECONDS, true)
            },
        }
    }
}

/// A read with default writes at most once: it writes exactly when the
/// setting was absent, and a second read returns the same value and writes
/// nothing, leaving the settings as the first read left them.
pub proof fn lemma_default_written_once(c: ConfigView, name: Seq<char>)
    ensures
        ({
            let (c1, v1, w1) = settle_log_path(c, name);
            let (c2, v2, w2) = settle_log_path(c1, name);
            &&& w1 <==> c.log_path is None
            &&& v2 == v1 && !w2 && c2 == c1
        }),
        ({
            let (c1, v1, w1) = settle_ip_log_path(c, name);
            let (c2, v2, w2) = settle_ip_log_path(c1, name);
            &&& w1 <==> c.ip_log_path is None
            &&& v2 == v1 && !w2 && c2 == c1
        }),
        ({
            let (c1, v1, w1) = settle_poll_seconds(c);
            let (c2, v2, w2) = settle_poll_seconds(c1);
            &&& w1 <==> c.poll_seconds is None
            &&& v2 == v1 && !w2 && c2 == c1
        }),
{
}

} // verus!
