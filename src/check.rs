use crate::args::CheckArgs;
use crate::config::{filtered, str_eq, strings_view, CertConfig, Config};
use vstd::prelude::*;

verus! {

/// Why a challenge could not be fetched back.
#[derive(Debug, PartialEq, Eq, Structural)]
pub enum CheckError {
    /// The response status was not 200; it holds the status received.
    Status(u16),
    /// The response body was not the token.
    Body,
}

/// The URL that serves the proof of `token` for the DNS name `name`.
pub open spec fn check_url_spec(name: Seq<char>, token: Seq<char>) -> Seq<char> {
    "http://"@ + name + "/.well-known/acme-challenge/"@ + token
}

/// Builds `http://<name>/.well-known/acme-challenge/<token>`.
pub fn check_url(name: &str, token: &str) -> (r: String)
    ensures
        r@ == check_url_spec(name@, token@),
{
    String::from_str("http://").concat(name).concat("/.well-known/acme-challenge/").concat(token)
}

/// The verdict on a fetched proof whose proof was the token itself.
pub open spec fn check_response_spec(status: u16, body: Seq<char>, token: Seq<char>) -> Result<
    (),
    CheckError,
> {
    if status != 200 {
        Err(CheckError::Status(status))
    } else if body != token {
        Err(CheckError::Body)
    } else {
        Ok(())
    }
}

/// Judges the response to a check: status 200 with the token as body.
pub fn check_response(status: u16, body: &str, token: &str) -> (r: Result<(), CheckError>)
    ensures
        r == check_response_spec(status, body@, token@),
{
    if status != 200 {
        Err(CheckError::Status(status))
    } else if !str_eq(body, token) {
        Err(CheckError::Body)
    } else {
        Ok(())
    }
}

/// The pairs of certificate name and DNS name of `certs`, in order.
pub open spec fn probes_of(certs: Seq<CertConfig>) -> Seq<(Seq<char>, Seq<char>)>
    decreases certs.len(),
{
    if certs.len() == 0 {
        seq![]
    } else {
        let c = certs.last();
        probes_of(certs.drop_last()) + strings_view(c.dns_names@).map_values(
            |d: Seq<char>| (c.name@, d),
        )
    }
}

/// The view of a list of probes.
pub open spec fn probes_view(v: Seq<(String, String)>) -> Seq<(Seq<char>, Seq<char>)> {
    v.map_values(|p: (String, String)| (p.0@, p.1@))
}

/// The checks of a check run: each DNS name of each selected certificate,
/// with the name of its certificate.
pub fn run(config: &Config, args: &CheckArgs) -> (r: Vec<(String, String)>)
    ensures
        probes_view(r@) == probes_of(filtered(config.certs@, strings_view(args.certs@))),
{
    let certs = config.filter_certs(&args.certs);
    let ghost sel = filtered(config.certs@, strings_view(args.certs@));
    let mut r: Vec<(String, String)> = Vec::new();
    let mut i: usize = 0;
    while i < certs.len()
        invariant
            i <= certs.len(),
            certs@.map_values(|c: &CertConfig| *c) == sel,
            probes_view(r@) == probes_of(sel.subrange(0, i as int)),
        decreases certs.len() - i,
    {
        let cert = certs[i];
        assert(sel[i as int] == *cert);
        assert(sel.subrange(0, i + 1).drop_last() =~= sel.subrange(0, i as int));
        let ghost base = r@;
        let mut j: usize = 0;
        while j < cert.dns_names.len()
            invariant
                j <= cert.dns_names.len(),
                probes_view(r@) == probes_view(base) + strings_view(cert.dns_names@).subrange(
                    0,
                    j as int,
                ).map_values(|d: Seq<char>| (cert.name@, d)),
            decreases cert.dns_names.len() - j,
        {
            let ghost before = r@;
            r.push((cert.name.clone(), cert.dns_names[j].clone()));
            assert(probes_view(r@) =~= probes_view(before).push(
                (cert.name@, cert.dns_names@[j as int]@),
            ));
            assert(strings_view(cert.dns_names@).subrange(0, j + 1).map_values(
                |d: Seq<char>| (cert.name@, d),
            ) =~= strings_view(cert.dns_names@).subrange(0, j as int).map_values(
                |d: Seq<char>| (cert.name@, d),
            ).push((cert.name@, cert.dns_names@[j as int]@)));
            j += 1;
        }
        assert(strings_view(cert.dns_names@).subrange(0, cert.dns_names@.len() as int)
            =~= strings_view(cert.dns_names@));
        i += 1;
    }
    assert(sel.subrange(0, certs@.len() as int) =~= sel);
    r
}

} // verus!
