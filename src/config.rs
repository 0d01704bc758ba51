use vstd::prelude::*;

verus! {

/// The directory of the ACME service used when none is configured.
pub const LETSENCRYPT: &'static str = "https://acme-v02.api.letsencrypt.org/directory";

/// Certificates with at most this many days of validity left are renewed.
pub const DEFAULT_RENEW_IF_DAYS_LEFT: i64 = 30;

/// The address the challenge daemon listens on when none is configured.
pub const BIND_ALL_PORT_80: &'static str = "[::]:80";

/// Settings of the ACME account and of renewal.
pub struct AcmeConfig {
    pub acme_email: Option<String>,
    pub acme_url: String,
    pub renew_if_days_left: i64,
}

/// Where the program keeps its state.
pub struct SystemConfig {
    pub addr: Option<String>,
    pub data_dir: String,
    pub chall_dir: String,
    pub hooks: Vec<String>,
    pub hooks_extra: Vec<String>,
}

/// The process-wide part of the configuration file.
pub struct ConfigFile {
    pub acme: AcmeConfig,
    pub system: SystemConfig,
}

/// One certificate to manage: its name, the DNS names it covers, whether it
/// asks for OCSP must-staple, and the hooks run after it was renewed.
#[derive(Debug)]
pub struct CertConfig {
    pub name: String,
    pub dns_names: Vec<String>,
    pub must_staple: bool,
    pub hooks: Vec<String>,
}

/// The content of one file of the certificate directory.
#[derive(Debug)]
pub struct CertConfigFile {
    pub cert: CertConfig,
}

/// The resolved configuration handed to the core.
pub struct Config {
    pub certs: Vec<CertConfig>,
    pub acme: AcmeConfig,
    pub system: SystemConfig,
}

/// A certificate is selected by a filter that is empty or names it.
pub open spec fn selected(filter: Seq<Seq<char>>, name: Seq<char>) -> bool {
    filter.len() == 0 || filter.contains(name)
}

/// The certificates of `certs` that the filter selects, in their order.
pub open spec fn filtered(certs: Seq<CertConfig>, filter: Seq<Seq<char>>) -> Seq<CertConfig>
    decreases certs.len(),
{
    if certs.len() == 0 {
        seq![]
    } else {
        let rest = filtered(certs.drop_last(), filter);
        if selected(filter, certs.last().name@) {
            rest.push(certs.last())
        } else {
            rest
        }
    }
}

/// The views of a list of strings.
pub open spec fn strings_view(v: Seq<String>) -> Seq<Seq<char>> {
    v.map_values(|s: String| s@)
}

/// Compares two strings character by character.
pub fn str_eq(a: &str, b: &str) -> (r: bool)
    ensures
        r == (a@ == b@),
{
    let n = a.unicode_len();
    if n != b.unicode_len() {
        return false;
    }
    let mut i: usize = 0;
    while i < n
        invariant
            n == a@.len(),
            n == b@.len(),
            i <= n,
            forall|j: int| 0 <= j < i ==> a@[j] == b@[j],
        decreases n - i,
    {
        if a.get_char(i) != b.get_char(i) {
            return false;
        }
        i += 1;
    }
    assert(a@ =~= b@);
    true
}

/// Whether `name` is one of `list`.
pub fn contains_str(list: &Vec<String>, name: &str) -> (r: bool)
    ensures
        r == strings_view(list@).contains(name@),
{
    let mut i: usize = 0;
    while i < list.len()
        invariant
            i <= list.len(),
            forall|j: int| 0 <= j < i ==> list@[j]@ != name@,
        decreases list.len() - i,
    {
        if str_eq(list[i].as_str(), name) {
            assert(strings_view(list@)[i as int] == name@);
            return true;
        }
        i += 1;
    }
    assert(!strings_view(list@).contains(name@)) by {
        if strings_view(list@).contains(name@) {
            let k = choose|k: int| 0 <= k < strings_view(list@).len() && strings_view(list@)[k] == name@;
            assert(list@[k]@ == name@);
        }
    }
    false
}

impl Config {
    /// The configured certificates that `filter` selects: all of them when the
    /// filter is empty, else those whose name it lists.
    pub fn filter_certs<'a>(&'a self, filter: &Vec<String>) -> (r: Vec<&'a CertConfig>)
        ensures
            r@.map_values(|c: &CertConfig| *c) == filtered(self.certs@, strings_view(filter@)),
    {
        let mut r: Vec<&'a CertConfig> = Vec::new();
        let mut i: usize = 0;
        while i < self.certs.len()
            invariant
                i <= self.certs.len(),
                r@.map_values(|c: &CertConfig| *c) == filtered(
                    self.certs@.subrange(0, i as int),
                    strings_view(filter@),
                ),
            decreases self.certs.len() - i,
        {
            let cert = &self.certs[i];
            proof {
                assert(self.certs@.subrange(0, i + 1).drop_last() =~= self.certs@.subrange(0, i as int));
            }
            let ghost before = r@;
            if filter.len() == 0 || contains_str(filter, cert.name.as_str()) {
                r.push(cert);
                assert(r@.map_values(|c: &CertConfig| *c) =~= before.map_values(
                    |c: &CertConfig| *c,
                ).push(*cert));
            }
            i += 1;
        }
        assert(self.certs@.subrange(0, self.certs@.len() as int) =~= self.certs@);
        r
    }
}

/// Compares two lists of strings element by element.
pub fn strings_eq(a: &Vec<String>, b: &Vec<String>) -> (r: bool)
    ensures
        r == (strings_view(a@) == strings_view(b@)),
{
    if a.len() != b.len() {
        assert(strings_view(a@).len() != strings_view(b@).len());
        return false;
    }
    let mut i: usize = 0;
    while i < a.len()
        invariant
            i <= a.len(),
            a.len() == b.len(),
            forall|j: int| 0 <= j < i ==> a@[j]@ == b@[j]@,
        decreases a.len() - i,
    {
        if !str_eq(a[i].as_str(), b[i].as_str()) {
            assert(strings_view(a@)[i as int] != strings_view(b@)[i as int]);
            return false;
        }
        i += 1;
    }
    assert(strings_view(a@) =~= strings_view(b@));
    true
}

/// Two certificate settings are equal when all their fields are.
pub open spec fn cert_config_eq(a: CertConfig, b: CertConfig) -> bool {
    a.name@ == b.name@ && strings_view(a.dns_names@) == strings_view(b.dns_names@) && a.must_staple
        == b.must_staple && strings_view(a.hooks@) == strings_view(b.hooks@)
}

impl PartialEq for CertConfig {
    fn eq(&self, other: &CertConfig) -> (r: bool)
        ensures
            r == cert_config_eq(*self, *other),
    {
        str_eq(self.name.as_str(), other.name.as_str()) && strings_eq(
            &self.dns_names,
            &other.dns_names,
        ) && self.must_staple == other.must_staple && strings_eq(&self.hooks, &other.hooks)
    }
}

impl vstd::std_specs::cmp::PartialEqSpecImpl for CertConfig {
    open spec fn obeys_eq_spec() -> bool {
        true
    }

    open spec fn eq_spec(&self, other: &CertConfig) -> bool {
        cert_config_eq(*self, *other)
    }
}

impl PartialEq for CertConfigFile {
    fn eq(&self, other: &CertConfigFile) -> (r: bool)
        ensures
            r == cert_config_eq(self.cert, other.cert),
    {
        self.cert.eq(&other.cert)
    }
}

impl vstd::std_specs::cmp::PartialEqSpecImpl for CertConfigFile {
    open spec fn obeys_eq_spec() -> bool {
        true
    }

    open spec fn eq_spec(&self, other: &CertConfigFile) -> bool {
        cert_config_eq(self.cert, other.cert)
    }
}

/// A TOML value.
#[verifier::external_type_specification]
#[verifier::external_body]
pub struct ExTomlValue(toml::Value);

/// A TOML table.
#[verifier::external_type_specification]
#[verifier::external_body]
#[verifier::reject_recursive_types(K)]
#[verifier::reject_recursive_types(V)]
pub struct ExTomlMap<K, V>(toml::map::Map<K, V>);

/// Relies on `toml::from_str`: the document as a table, none when it is no
/// valid TOML.
#[verifier::external_body]
fn parse_table(s: &str) -> (r: Option<toml::Table>) {
    toml::from_str::<toml::Table>(s).ok()
}

/// Relies on `toml::map::Map::get`: the value of a key of a table.
#[verifier::external_body]
fn table_get<'a>(t: &'a toml::Table, key: &str) -> (r: Option<&'a toml::Value>) {
    t.get(key)
}

/// Relies on `toml::Value::as_str`: the value as a string, if it is one.
#[verifier::external_body]
fn value_str(v: &toml::Value) -> (r: Option<String>) {
    v.as_str().map(|s| s.to_string())
}

/// Relies on `toml::Value::as_bool`: the value as a boolean, if it is one.
#[verifier::external_body]
fn value_bool(v: &toml::Value) -> (r: Option<bool>) {
    v.as_bool()
}

/// Relies on `toml::Value::as_array`: the value as an array, if it is one.
#[verifier::external_body]
fn value_array<'a>(v: &'a toml::Value) -> (r: Option<&'a Vec<toml::Value>>) {
    v.as_array()
}

/// Relies on `toml::Value::as_table`: the value as a table, if it is one.
#[verifier::external_body]
fn value_table<'a>(v: &'a toml::Value) -> (r: Option<&'a toml::Table>) {
    v.as_table()
}

/// Why a configuration file was refused.
#[derive(Debug, PartialEq, Eq, Structural)]
pub enum ConfigError {
    /// The text is no valid TOML.
    Syntax,
    /// A required setting is missing.
    Missing,
    /// A setting has the wrong type.
    WrongType,
}

/// A list of strings from a TOML array.
fn string_list(v: &toml::Value) -> (r: Result<Vec<String>, ConfigError>) {
    let items = match value_array(v) {
        Some(a) => a,
        None => return Err(ConfigError::WrongType),
    };
    let mut out: Vec<String> = Vec::new();
    let mut i: usize = 0;
    while i < items.len()
        decreases items.len() - i,
    {
        match value_str(&items[i]) {
            Some(s) => out.push(s),
            None => return Err(ConfigError::WrongType),
        }
        i += 1;
    }
    Ok(out)
}

/// An optional list of strings of a table, empty when the key is missing.
fn optional_list(t: &toml::Table, key: &str) -> (r: Result<Vec<String>, ConfigError>) {
    match table_get(t, key) {
        None => Ok(Vec::new()),
        Some(v) => string_list(v),
    }
}

/// Reads a file of the certificate directory: a `[cert]` table with a
/// `name`, a list of `dns_names`, and optionally `must_staple` (default
/// false) and `exec`, the hooks (default none).
pub fn load_cert_config(s: &str) -> (r: Result<CertConfigFile, ConfigError>) {
    let doc = match parse_table(s) {
        Some(d) => d,
        None => return Err(ConfigError::Syntax),
    };
    let cert = match table_get(&doc, "cert") {
        Some(v) => match value_table(v) {
            Some(t) => t,
            None => return Err(ConfigError::WrongType),
        },
        None => return Err(ConfigError::Missing),
    };
    let name = match table_get(cert, "name") {
        Some(v) => match value_str(v) {
            Some(n) => n,
            None => return Err(ConfigError::WrongType),
        },
        None => return Err(ConfigError::Missing),
    };
    let dns_names = match table_get(cert, "dns_names") {
        Some(v) => string_list(v)?,
        None => return Err(ConfigError::Missing),
    };
    let must_staple = match table_get(cert, "must_staple") {
        Some(v) => match value_bool(v) {
            Some(b) => b,
            None => return Err(ConfigError::WrongType),
        },
        None => false,
    };
    let hooks = optional_list(cert, "exec")?;
    Ok(CertConfigFile { cert: CertConfig { name, dns_names, must_staple, hooks } })
}

} // verus!
