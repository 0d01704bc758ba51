use crate::chall::{valid_token, valid_token_spec};
use vstd::prelude::*;

verus! {

/// How long the ACME service is polled between checks, in milliseconds.
pub const POLL_MS: u64 = 5000;

/// One certificate order: where, for which account, for which names.
pub struct Request {
    pub acme_url: String,
    pub account_email: Option<String>,
    pub primary_name: String,
    pub alt_names: Vec<String>,
}

/// The contact list of an account: `mailto:<email>`, or none.
pub open spec fn contact_spec(email: Option<Seq<char>>) -> Seq<Seq<char>> {
    match email {
        Some(e) => seq!["mailto:"@ + e],
        None => seq![],
    }
}

/// Builds the contact list of an account.
pub fn contact(email: Option<&str>) -> (r: Vec<String>)
    ensures
        r@.map_values(|s: String| s@) == contact_spec(
            match email {
                Some(e) => Some(e@),
                None => None,
            },
        ),
{
    let mut r: Vec<String> = Vec::new();
    match email {
        Some(e) => {
            r.push(String::from_str("mailto:").concat(e));
            assert(r@.map_values(|s: String| s@) =~= seq!["mailto:"@ + e@]);
        },
        None => {
            assert(r@.map_values(|s: String| s@) =~= Seq::<Seq<char>>::empty());
        },
    }
    r
}

/// What the service offered to prove control of one name.
pub enum AuthOffer {
    /// An HTTP-01 challenge: the file name and its contents.
    Http { token: String, proof: String },
    /// No HTTP-01 challenge was offered.
    NoHttp,
    /// The HTTP-01 challenge offered had no usable proof.
    BadProof,
}

/// Why an order was given up.
#[derive(Debug, PartialEq, Eq, Structural)]
pub enum AcmeError {
    /// A request to the service failed.
    Protocol,
    /// The service did not offer an HTTP-01 challenge.
    ChallengeTypeUnavailable,
    /// The service sent a token that is no safe file name.
    InvalidToken,
    /// A proof or the account key could not be written or read.
    Store,
}

/// The result of the action last asked for.
pub enum AcmeEvent {
    /// It succeeded.
    Done,
    /// It failed.
    Failed,
    /// The persisted account key, if there is one.
    AccountKey(Option<String>),
    /// Whether the order has all its validations confirmed.
    Confirmed(bool),
    /// The authorizations of the order, one offer each.
    Authorizations(Vec<AuthOffer>),
}

/// What to do next.
pub enum AcmeAction {
    /// Fetch the service's directory of endpoints.
    FetchDirectory,
    /// Load the persisted account key.
    LoadAccountKey,
    /// Authenticate with the persisted key.
    LoadAccount { key: String, contact: Vec<String> },
    /// Register a new account.
    RegisterAccount { contact: Vec<String> },
    /// Persist the key of the account just registered.
    StoreAccountKey,
    /// Order a certificate for the primary and alternate names.
    NewOrder,
    /// Ask whether all validations of the order are confirmed.
    ConfirmValidations,
    /// Fetch the authorizations of the order.
    FetchAuthorizations,
    /// Write a proof file.
    PublishProof { token: String, proof: String },
    /// Ask the service to validate the last published proof and wait for it.
    Validate { poll_ms: u64 },
    /// Refresh the state of the order.
    Refresh,
    /// Make a fresh certificate key, submit the signing request, wait for the
    /// certificate.
    Finalize { poll_ms: u64 },
    /// Download the issued chain.
    Download,
    /// The certificate is ready to be stored.
    Finish,
    /// Give up the order.
    Abort(AcmeError),
}

/// Which result the orchestrator waits for.
#[derive(Clone, Copy, Debug, PartialEq, Eq, Structural)]
pub enum Phase {
    Directory,
    AccountKey,
    Account,
    Registration,
    KeyStored,
    Order,
    Confirmation,
    Authorizations,
    Published,
    Validated,
    Refreshed,
    Finalized,
    Downloaded,
    Issued,
    Aborted,
}

/// What follows when offer `next` of `offers` is the one to handle: a proof to
/// publish, the end of the round, or the reason to give up.
pub open spec fn offer_step(offers: Seq<AuthOffer>, next: int, phase: Phase, r: AcmeAction) -> bool {
    if next >= offers.len() {
        phase == Phase::Refreshed && r is Refresh
    } else {
        match offers[next] {
            AuthOffer::Http { token, proof } => if valid_token_spec(token@) {
                phase == Phase::Published && (r matches AcmeAction::PublishProof { token: t, proof: p }
                    && t@ == token@ && p@ == proof@)
            } else {
                phase == Phase::Aborted && r == AcmeAction::Abort(AcmeError::InvalidToken)
            },
            AuthOffer::NoHttp => phase == Phase::Aborted && r == AcmeAction::Abort(
                AcmeError::ChallengeTypeUnavailable,
            ),
            AuthOffer::BadProof => phase == Phase::Aborted && r == AcmeAction::Abort(
                AcmeError::Protocol,
            ),
        }
    }
}

/// The error an order is given up with when an action failed in `phase`.
pub open spec fn failure_of(phase: Phase) -> AcmeError {
    match phase {
        Phase::AccountKey | Phase::KeyStored | Phase::Published => AcmeError::Store,
        _ => AcmeError::Protocol,
    }
}

/// Drives one certificate order through the ACME protocol.
pub struct Orchestrator {
    email: Option<String>,
    phase: Phase,
    offers: Vec<AuthOffer>,
    next: usize,
}

impl Orchestrator {
    /// The result waited for.
    pub closed spec fn phase(&self) -> Phase {
        self.phase
    }

    /// The account email.
    pub closed spec fn email(&self) -> Option<Seq<char>> {
        match self.email {
            Some(e) => Some(e@),
            None => None,
        }
    }

    /// The authorizations of the current round.
    pub closed spec fn offers(&self) -> Seq<AuthOffer> {
        self.offers@
    }

    /// The authorization handled in the current round.
    pub closed spec fn next(&self) -> int {
        self.next as int
    }

    /// A proof is outstanding only for an authorization of the round.
    pub open spec fn wf(&self) -> bool {
        (self.phase() == Phase::Published || self.phase() == Phase::Validated) ==> 0 <= self.next()
            < self.offers().len()
    }

    /// Starts an order for `req`: the first action fetches the directory.
    pub fn new(req: &Request) -> (r: (Orchestrator, AcmeAction))
        ensures
            r.0.wf(),
            r.0.phase() == Phase::Directory,
            r.0.email() == match req.account_email {
                Some(e) => Some(e@),
                None => None,
            },
            r.1 is FetchDirectory,
    {
        let email = match &req.account_email {
            Some(e) => Some(e.clone()),
            None => None,
        };
        (Orchestrator { email, phase: Phase::Directory, offers: Vec::new(), next: 0 }, AcmeAction::FetchDirectory)
    }

    /// Handles offer `next` of the current round.
    fn handle_offer(&mut self) -> (r: AcmeAction)
        ensures
            final(self).wf(),
            final(self).email() == old(self).email(),
            final(self).offers() == old(self).offers(),
            final(self).next() == old(self).next(),
            offer_step(old(self).offers(), old(self).next(), final(self).phase(), r),
    {
        if self.next >= self.offers.len() {
            self.phase = Phase::Refreshed;
            return AcmeAction::Refresh;
        }
        match &self.offers[self.next] {
            AuthOffer::Http { token, proof } => {
                if valid_token(token.as_str()) {
                    self.phase = Phase::Published;
                    AcmeAction::PublishProof { token: token.clone(), proof: proof.clone() }
                } else {
                    self.phase = Phase::Aborted;
                    AcmeAction::Abort(AcmeError::InvalidToken)
                }
            },
            AuthOffer::NoHttp => {
                self.phase = Phase::Aborted;
                AcmeAction::Abort(AcmeError::ChallengeTypeUnavailable)
            },
            AuthOffer::BadProof => {
                self.phase = Phase::Aborted;
                AcmeAction::Abort(AcmeError::Protocol)
            },
        }
    }

    /// The contact list of the account.
    fn contact(&self) -> (r: Vec<String>)
        ensures
            r@.map_values(|s: String| s@) == contact_spec(self.email()),
    {
        match &self.email {
            Some(e) => contact(Some(e.as_str())),
            None => contact(None),
        }
    }

    /// Takes the result of the last action and decides the next one.
    pub fn step(&mut self, event: AcmeEvent) -> (r: AcmeAction)
        requires
            old(self).wf(),
        ensures
            final(self).wf(),
            final(self).email() == old(self).email(),
            // any failure gives the order up
            event is Failed && old(self).phase() != Phase::Issued && old(self).phase()
                != Phase::Aborted ==> (final(self).phase() == Phase::Aborted && r == AcmeAction::Abort(
                failure_of(old(self).phase()),
            )),
            // account: load the persisted key, else register and persist the
            // new key before anything else
            old(self).phase() == Phase::Directory && event is Done ==> (final(self).phase()
                == Phase::AccountKey && r is LoadAccountKey),
            old(self).phase() == Phase::AccountKey && event is AccountKey && event->AccountKey_0 is Some
                ==> (final(self).phase() == Phase::Account && r is LoadAccount && r->LoadAccount_key
                == event->AccountKey_0->Some_0 && r->LoadAccount_contact@.map_values(
                |s: String| s@,
            ) == contact_spec(old(self).email())),
            old(self).phase() == Phase::AccountKey && event is AccountKey && event->AccountKey_0 is None
                ==> (final(self).phase() == Phase::Registration && r is RegisterAccount
                && r->RegisterAccount_contact@.map_values(|s: String| s@) == contact_spec(
                old(self).email(),
            )),
            old(self).phase() == Phase::Registration && event is Done ==> (final(self).phase()
                == Phase::KeyStored && r is StoreAccountKey),
            (old(self).phase() == Phase::Account || old(self).phase() == Phase::KeyStored)
                && event is Done ==> (final(self).phase() == Phase::Order && r is NewOrder),
            // validation rounds until the order is confirmed
            (old(self).phase() == Phase::Order || old(self).phase() == Phase::Refreshed) && event
                is Done ==> (final(self).phase() == Phase::Confirmation && r is ConfirmValidations),
            old(self).phase() == Phase::Confirmation && event is Confirmed && event->Confirmed_0 ==> (
            final(self).phase() == Phase::Finalized && r == (AcmeAction::Finalize {
                poll_ms: POLL_MS,
            })),
            old(self).phase() == Phase::Confirmation && event is Confirmed && !event->Confirmed_0
                ==> (final(self).phase() == Phase::Authorizations && r is FetchAuthorizations),
            old(self).phase() == Phase::Authorizations && event is Authorizations ==> (
            final(self).offers() == event->Authorizations_0@ && final(self).next() == 0
                && offer_step(final(self).offers(), 0, final(self).phase(), r)),
            old(self).phase() == Phase::Published && event is Done ==> (final(self).phase()
                == Phase::Validated && r == (AcmeAction::Validate { poll_ms: POLL_MS })),
            old(self).phase() == Phase::Validated && event is Done ==> (final(self).offers()
                == old(self).offers() && final(self).next() == old(self).next() + 1 && offer_step(
                final(self).offers(),
                final(self).next(),
                final(self).phase(),
                r,
            )),
            // certificate
            old(self).phase() == Phase::Finalized && event is Done ==> (final(self).phase()
                == Phase::Downloaded && r is Download),
            old(self).phase() == Phase::Downloaded && event is Done ==> (final(self).phase()
                == Phase::Issued && r is Finish),
            // the end states keep their answer
            old(self).phase() == Phase::Issued ==> (final(self).phase() == Phase::Issued
                && r is Finish),
            old(self).phase() == Phase::Aborted ==> (final(self).phase() == Phase::Aborted && r
                == AcmeAction::Abort(AcmeError::Protocol)),
            // a proof is published only under a safe token
            r is PublishProof ==> valid_token_spec(r->PublishProof_token@),
            // the certificate key is made only once all validations are
            // confirmed
            r is Finalize ==> (old(self).phase() == Phase::Confirmation && event is Confirmed
                && event->Confirmed_0),
            // an order is placed only with an account whose key is persisted
            r is NewOrder ==> ((old(self).phase() == Phase::Account || old(self).phase()
                == Phase::KeyStored) && event is Done),
    {
        let phase = self.phase;
        if phase == Phase::Issued {
            return AcmeAction::Finish;
        }
        if phase == Phase::Aborted {
            return AcmeAction::Abort(AcmeError::Protocol);
        }
        let r = match event {
            AcmeEvent::Failed => {
                self.phase = Phase::Aborted;
                if phase == Phase::AccountKey || phase == Phase::KeyStored || phase == Phase::Published {
                    AcmeAction::Abort(AcmeError::Store)
                } else {
                    AcmeAction::Abort(AcmeError::Protocol)
                }
            },
            AcmeEvent::Done => {
                if phase == Phase::Directory {
                    self.phase = Phase::AccountKey;
                    AcmeAction::LoadAccountKey
                } else if phase == Phase::Registration {
                    self.phase = Phase::KeyStored;
                    AcmeAction::StoreAccountKey
                } else if phase == Phase::Account || phase == Phase::KeyStored {
                    self.phase = Phase::Order;
                    AcmeAction::NewOrder
                } else if phase == Phase::Order || phase == Phase::Refreshed {
                    self.phase = Phase::Confirmation;
                    AcmeAction::ConfirmValidations
                } else if phase == Phase::Published {
                    self.phase = Phase::Validated;
                    AcmeAction::Validate { poll_ms: POLL_MS }
                } else if phase == Phase::Validated {
                    let len = self.offers.len();
                    assert(self.next < len);
                    self.next = self.next + 1;
                    self.handle_offer()
                } else if phase == Phase::Finalized {
                    self.phase = Phase::Downloaded;
                    AcmeAction::Download
                } else if phase == Phase::Downloaded {
                    self.phase = Phase::Issued;
                    AcmeAction::Finish
                } else {
                    self.phase = Phase::Aborted;
                    AcmeAction::Abort(AcmeError::Protocol)
                }
            },
            AcmeEvent::AccountKey(key) => {
                if phase == Phase::AccountKey {
                    match key {
                        Some(k) => {
                            self.phase = Phase::Account;
                            AcmeAction::LoadAccount { key: k, contact: self.contact() }
                        },
                        None => {
                            self.phase = Phase::Registration;
                            AcmeAction::RegisterAccount { contact: self.contact() }
                        },
                    }
                } else {
                    self.phase = Phase::Aborted;
                    AcmeAction::Abort(AcmeError::Protocol)
                }
            },
            AcmeEvent::Confirmed(done) => {
                if phase == Phase::Confirmation {
                    if done {
                        self.phase = Phase::Finalized;
                        AcmeAction::Finalize { poll_ms: POLL_MS }
                    } else {
                        self.phase = Phase::Authorizations;
                        AcmeAction::FetchAuthorizations
                    }
                } else {
                    self.phase = Phase::Aborted;
                    AcmeAction::Abort(AcmeError::Protocol)
                }
            },
            AcmeEvent::Authorizations(offers) => {
                if phase == Phase::Authorizations {
                    self.offers = offers;
                    self.next = 0;
                    self.handle_offer()
                } else {
                    self.phase = Phase::Aborted;
                    AcmeAction::Abort(AcmeError::Protocol)
                }
            },
        };
        r
    }
}

} // verus!
