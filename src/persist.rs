use crate::config::Config;
use crate::decimal::{dec_spec, decimal, padded, padded_spec};
use crate::paths::{join, join_spec};
use vstd::prelude::*;
use vstd::slice::slice_subrange;

verus! {

/// A PEM block as the pem crate holds it.
#[verifier::external_type_specification]
#[verifier::external_body]
pub struct ExPem(pem::Pem);

/// The error of the pem crate.
#[verifier::external_type_specification]
#[verifier::external_body]
pub struct ExPemError(pem::PemError);

/// The number of PEM blocks in `input`, or none when a block is malformed.
pub uninterp spec fn pem_block_count(input: Seq<char>) -> Option<nat>;

/// Relies on `pem::parse_many`: the blocks of the input in order; an input
/// without any block, the empty one too, gives none.
#[verifier::external_body]
fn parse_many(input: &str) -> (r: Result<Vec<pem::Pem>, pem::PemError>)
    ensures
        match r {
            Ok(blocks) => pem_block_count(input@) == Some(blocks@.len()),
            Err(_) => pem_block_count(input@) is None,
        },
        input@.len() == 0 ==> (r is Ok && r->Ok_0@.len() == 0),
{
    pem::parse_many(input)
}

/// Relies on `pem::encode`: the text of one block, which opens with its
/// `-----BEGIN ` line.
#[verifier::external_body]
fn encode(block: &pem::Pem) -> (r: String)
    ensures
        r@.len() > 11,
        r@.subrange(0, 11) == "-----BEGIN "@,
{
    pem::encode(block)
}

/// Relies on `pem::encode_many`: the texts of the blocks joined; nothing for
/// no block.
#[verifier::external_body]
fn encode_many(blocks: &[pem::Pem]) -> (r: String)
    ensures
        blocks@.len() == 0 <==> r@.len() == 0,
{
    pem::encode_many(blocks)
}

/// Why a certificate could not be stored.
#[derive(Debug, PartialEq, Eq, Structural)]
pub enum StoreError {
    /// The issued chain holds a malformed PEM block.
    MalformedChain,
    /// The issued chain holds no certificate.
    EmptyChain,
}

/// Splits a PEM-encoded chain into the chain of the certificates after the
/// first and the first (leaf) certificate.
pub fn split_chain(fullchain: &str) -> (r: Result<(String, String), StoreError>)
    ensures
        match pem_block_count(fullchain@) {
            None => r == Err::<(String, String), StoreError>(StoreError::MalformedChain),
            Some(n) => if n == 0 {
                r == Err::<(String, String), StoreError>(StoreError::EmptyChain)
            } else {
                r matches Ok((chain, cert)) && (chain@.len() == 0 <==> n == 1)
                    && cert@.subrange(0, 11) == "-----BEGIN "@ && cert@.len() > 11
            },
        },
{
    let pems = match parse_many(fullchain) {
        Ok(p) => p,
        Err(_) => return Err(StoreError::MalformedChain),
    };
    if pems.len() == 0 {
        return Err(StoreError::EmptyChain);
    }
    let cert = encode(&pems[0]);
    let rest = slice_subrange(pems.as_slice(), 1, pems.len());
    let chain = encode_many(rest);
    Ok((chain, cert))
}

/// Permissions of the files that hold the private key: owner and group may
/// read.
pub const PRIVATE_MODE: u32 = 0o440;

/// Permissions of the files that hold only certificates: everybody may read.
pub const PUBLIC_MODE: u32 = 0o444;

/// One file of a certificate version.
pub struct Artifact {
    pub file: String,
    pub mode: u32,
    pub contents: String,
}

/// Whether `a` is the file `file` with permissions `mode`.
pub open spec fn artifact_is(a: Artifact, file: Seq<char>, mode: u32) -> bool {
    a.file@ == file && a.mode == mode
}

/// The five files of a certificate version, in the order they are written:
/// the private key, the full chain, the chain without the leaf, the leaf, and
/// the bundle of private key and leaf.
pub fn store_artifacts(private_key: &str, fullchain: &str) -> (r: Result<Vec<Artifact>, StoreError>)
    ensures
        match pem_block_count(fullchain@) {
            None => r == Err::<Vec<Artifact>, StoreError>(StoreError::MalformedChain),
            Some(n) => if n == 0 {
                r == Err::<Vec<Artifact>, StoreError>(StoreError::EmptyChain)
            } else {
                r matches Ok(v) && v@.len() == 5
                    && artifact_is(v@[0], "privkey"@, PRIVATE_MODE)
                    && v@[0].contents@ == private_key@
                    && artifact_is(v@[1], "fullchain"@, PUBLIC_MODE)
                    && v@[1].contents@ == fullchain@
                    && artifact_is(v@[2], "chain"@, PUBLIC_MODE)
                    && (v@[2].contents@.len() == 0 <==> n == 1)
                    && artifact_is(v@[3], "cert"@, PUBLIC_MODE)
                    && v@[3].contents@.subrange(0, 11) == "-----BEGIN "@
                    && artifact_is(v@[4], "bundle"@, PRIVATE_MODE)
                    && v@[4].contents@ == private_key@ + v@[3].contents@
            },
        },
{
    let (chain, cert) = match split_chain(fullchain) {
        Ok(pair) => pair,
        Err(e) => return Err(e),
    };
    let bundle = String::from_str(private_key).concat(cert.as_str());
    let mut v: Vec<Artifact> = Vec::new();
    v.push(
        Artifact {
            file: String::from_str("privkey"),
            mode: PRIVATE_MODE,
            contents: String::from_str(private_key),
        },
    );
    v.push(
        Artifact {
            file: String::from_str("fullchain"),
            mode: PUBLIC_MODE,
            contents: String::from_str(fullchain),
        },
    );
    v.push(Artifact { file: String::from_str("chain"), mode: PUBLIC_MODE, contents: chain });
    v.push(Artifact { file: String::from_str("cert"), mode: PUBLIC_MODE, contents: cert });
    v.push(Artifact { file: String::from_str("bundle"), mode: PRIVATE_MODE, contents: bundle });
    Ok(v)
}

/// The path of the store below the data directory.
pub struct FilePersist {
    path: String,
}

impl FilePersist {
    /// The data directory.
    pub closed spec fn root(&self) -> Seq<char> {
        self.path@
    }

    /// A store in the configured data directory.
    pub fn new(config: &Config) -> (r: FilePersist)
        ensures
            r.root() == config.system.data_dir@,
    {
        FilePersist { path: config.system.data_dir.clone() }
    }

    /// `<data_dir>/acc.key`, the private key of the ACME account.
    pub fn acc_privkey_path(&self) -> (r: String)
        ensures
            r@ == join_spec(self.root(), "acc.key"@),
    {
        join(self.path.as_str(), "acc.key")
    }

    /// `<data_dir>/certs`, the directory of the certificate versions.
    pub fn certs_dir(&self) -> (r: String)
        ensures
            r@ == join_spec(self.root(), "certs"@),
    {
        join(self.path.as_str(), "certs")
    }

    /// `<data_dir>/certs/<version>`, one certificate version.
    pub fn version_path(&self, version: &str) -> (r: String)
        ensures
            r@ == join_spec(join_spec(self.root(), "certs"@), version@),
    {
        join(self.certs_dir().as_str(), version)
    }

    /// `<data_dir>/live`, the directory of the live mappings.
    pub fn live_dir(&self) -> (r: String)
        ensures
            r@ == join_spec(self.root(), "live"@),
    {
        join(self.path.as_str(), "live")
    }

    /// `<data_dir>/live/<name>`, the live mapping of a certificate.
    pub fn live_path(&self, name: &str) -> (r: String)
        ensures
            r@ == join_spec(join_spec(self.root(), "live"@), name@),
    {
        join(self.live_dir().as_str(), name)
    }

    /// `<data_dir>/live/<name>/fullchain`, the full chain of the live
    /// certificate of `name`.
    pub fn live_fullchain_path(&self, name: &str) -> (r: String)
        ensures
            r@ == join_spec(join_spec(join_spec(self.root(), "live"@), name@), "fullchain"@),
    {
        join(self.live_path(name).as_str(), "fullchain")
    }
}

/// The name of version directory `n` of certificate `name` issued on `date`:
/// `<date>-<name>` for the first, `<date>-<name>-<n>` after it.
pub open spec fn version_name(date: Seq<char>, name: Seq<char>, n: nat) -> Seq<char> {
    if n == 0 {
        date + seq!['-'] + name
    } else {
        date + seq!['-'] + name + seq!['-'] + dec_spec(n)
    }
}

/// Names the version directory tried at attempt `n` of claiming one.
pub fn version_dir_name(date: &str, name: &str, n: u64) -> (r: String)
    ensures
        r@ == version_name(date@, name@, n as nat),
{
    proof {
        reveal_strlit("-");
    }
    let mut r = String::from_str(date);
    r.append("-");
    r.append(name);
    if n > 0 {
        r.append("-");
        let d = decimal(n);
        r.append(d.as_str());
    }
    r
}

/// A calendar date as `YYYYMMDD`; a year before zero gets a minus sign.
pub open spec fn date_stamp_spec(year: int, month: nat, day: nat) -> Seq<char> {
    let y = if year < 0 {
        seq!['-'] + padded_spec((-year) as nat, 4)
    } else {
        padded_spec(year as nat, 4)
    };
    y + padded_spec(month, 2) + padded_spec(day, 2)
}

/// Writes a calendar date as `YYYYMMDD`.
pub fn date_stamp(year: i32, month: u8, day: u8) -> (r: String)
    ensures
        r@ == date_stamp_spec(year as int, month as nat, day as nat),
{
    let mut r = if year < 0 {
        proof {
            reveal_strlit("-");
        }
        let mut s = String::from_str("-");
        let y = padded((-(year as i64)) as u64, 4);
        s.append(y.as_str());
        s
    } else {
        padded(year as u64, 4)
    };
    let m = padded(month as u64, 2);
    let d = padded(day as u64, 2);
    r.append(m.as_str());
    r.append(d.as_str());
    r
}

/// Relies on `time::OffsetDateTime::now_utc`: today's date in UTC as year,
/// month (1 to 12) and day of the month (1 to 31).
#[verifier::external_body]
fn today_utc() -> (r: (i32, u8, u8))
    ensures
        1 <= r.1 <= 12,
        1 <= r.2 <= 31,
{
    let d = time::OffsetDateTime::now_utc().date();
    (d.year(), u8::from(d.month()), d.day())
}

/// Today's date in UTC as `YYYYMMDD`, the first part of a version name.
pub fn today_stamp() -> (r: String)
    ensures
        exists|y: i32, m: u8, d: u8|
            1 <= m <= 12 && 1 <= d <= 31 && r@ == #[trigger] date_stamp_spec(
                y as int,
                m as nat,
                d as nat,
            ),
{
    let (y, m, d) = today_utc();
    date_stamp(y, m, d)
}

} // verus!
