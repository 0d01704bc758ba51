use vstd::prelude::*;

verus! {

/// The binary contents of the first PEM block of `input`, or none when the
/// input holds no well-formed block.
pub uninterp spec fn pem_contents(input: Seq<u8>) -> Option<Seq<u8>>;

/// The validity of the DER-encoded X.509 certificate `der`: its start as
/// text and its end in seconds since the Unix epoch; none when it is no
/// certificate.
pub uninterp spec fn x509_validity(der: Seq<u8>) -> Option<(Seq<char>, int)>;

/// Relies on `pem::parse`: the contents of the first PEM block of the input.
#[verifier::external_body]
fn parse_pem(input: &[u8]) -> (r: Option<Vec<u8>>)
    ensures
        match r {
            Some(c) => pem_contents(input@) == Some(c@),
            None => pem_contents(input@) is None,
        },
{
    pem::parse(input).ok().map(|p| p.into_contents())
}

/// Relies on `x509_parser::parse_x509_certificate`: the `not_before` of the
/// certificate's validity as text and its `not_after` as a Unix timestamp.
#[verifier::external_body]
fn parse_validity(der: &[u8]) -> (r: Option<(String, i64)>)
    ensures
        match r {
            Some((nb, na)) => x509_validity(der@) == Some((nb@, na as int)),
            None => x509_validity(der@) is None,
        },
{
    x509_parser::parse_x509_certificate(der).ok().map(
        |(_, c)| (c.validity().not_before.to_string(), c.validity().not_after.timestamp()),
    )
}

/// Relies on `time::OffsetDateTime::now_utc`: the current time in seconds
/// since the Unix epoch.
#[verifier::external_body]
fn unix_now() -> (r: i64) {
    time::OffsetDateTime::now_utc().unix_timestamp()
}

/// The whole days in a span of `secs` seconds, truncated toward zero.
pub open spec fn whole_days(secs: int) -> int {
    if secs >= 0 {
        secs / 86400
    } else {
        -((-secs) / 86400)
    }
}

/// Whole days of validity left at `now` for a certificate ending at
/// `expires`.
pub open spec fn days_left_spec(expires: int, now: int) -> int {
    whole_days(expires - now)
}

/// Why certificate metadata could not be read.
#[derive(Debug, PartialEq, Eq, Structural)]
pub enum CertError {
    /// The input holds no well-formed PEM block.
    Pem,
    /// The first PEM block is no X.509 certificate.
    Certificate,
}

/// The validity window of a certificate.
pub struct CertInfo {
    pub not_before: String,
    /// End of validity, in seconds since the Unix epoch.
    pub expires: i64,
}

/// What reading a PEM-encoded certificate gives.
pub open spec fn cert_info_of(input: Seq<u8>) -> Option<Result<(Seq<char>, int), CertError>> {
    match pem_contents(input) {
        None => Some(Err(CertError::Pem)),
        Some(der) => match x509_validity(der) {
            None => Some(Err(CertError::Certificate)),
            Some(v) => Some(Ok(v)),
        },
    }
}

impl CertInfo {
    /// Reads the validity of the first certificate of a PEM file.
    pub fn from_pem(certificate: &[u8]) -> (r: Result<CertInfo, CertError>)
        ensures
            match r {
                Ok(info) => cert_info_of(certificate@) == Some(
                    Ok::<(Seq<char>, int), CertError>((info.not_before@, info.expires as int)),
                ),
                Err(e) => cert_info_of(certificate@) == Some(Err::<(Seq<char>, int), CertError>(e)),
            },
    {
        match parse_pem(certificate) {
            None => Err(CertError::Pem),
            Some(der) => match parse_validity(der.as_slice()) {
                None => Err(CertError::Certificate),
                Some((not_before, expires)) => Ok(CertInfo { not_before, expires }),
            },
        }
    }

    /// Whole days of validity left at the time `now` (seconds since the Unix
    /// epoch), truncated toward zero; negative once the certificate expired.
    pub fn days_left_at(&self, now: i64) -> (r: i64)
        ensures
            r == days_left_spec(self.expires as int, now as int),
    {
        let secs: i128 = self.expires as i128 - now as i128;
        if secs >= 0 {
            (secs / 86400) as i64
        } else {
            let back: i128 = -secs;
            -((back / 86400) as i64)
        }
    }

    /// Whole days of validity left now.
    pub fn days_left(&self) -> (r: i64)
        ensures
            exists|now: i64| r == #[trigger] days_left_spec(self.expires as int, now as int),
    {
        let now = unix_now();
        self.days_left_at(now)
    }
}

} // verus!
