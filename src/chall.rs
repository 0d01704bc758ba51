use crate::config::Config;
use crate::paths::{join, join_spec};
use rand::seq::SliceRandom;
use vstd::prelude::*;

verus! {

/// The characters of a challenge token.
pub const VALID_CHARS: &'static str = "ABCDEFGHIJKLMNOPQRSTUVWXYZabcdefghijklmnopqrstuvwxyz0123456789-_";

/// The length of a token made up for a self-check.
pub const TOKEN_LEN: usize = 16;

/// Why a challenge proof could not be placed.
#[derive(Debug, PartialEq, Eq, Structural)]
pub enum ChallengeError {
    /// The token holds a character other than a letter, a digit, `-` or `_`.
    InvalidToken,
}

/// A character that may appear in a challenge token: an ASCII letter, a digit,
/// `-` or `_`.
pub open spec fn is_token_char(c: char) -> bool {
    ('A' <= c && c <= 'Z') || ('a' <= c && c <= 'z') || ('0' <= c && c <= '9') || c == '-' || c
        == '_'
}

/// A token is safe to use as a file name when all of its characters are token
/// characters; it then holds no `/`, `.` or whitespace.
pub open spec fn valid_token_spec(t: Seq<char>) -> bool {
    forall|i: int| 0 <= i < t.len() ==> is_token_char(#[trigger] t[i])
}

/// A token made only of letters, digits, `-` and `_` is valid; one that
/// holds a `/`, a `.` or an ASCII whitespace character is not.
pub proof fn lemma_token_validation(t: Seq<char>, i: int)
    ensures
        (forall|j: int| 0 <= j < t.len() ==> is_token_char(#[trigger] t[j])) ==> valid_token_spec(t),
        0 <= i < t.len() && (t[i] == '/' || t[i] == '.' || t[i] == ' ' || t[i] == '\t' || t[i]
            == '\n' || t[i] == '\r' || t[i] == '\x0b' || t[i] == '\x0c') ==> !valid_token_spec(t),
{
}

/// Whether `c` is a token character.
pub fn is_valid_char(c: char) -> (r: bool)
    ensures
        r == is_token_char(c),
{
    ('A' <= c && c <= 'Z') || ('a' <= c && c <= 'z') || ('0' <= c && c <= '9') || c == '-' || c
        == '_'
}

/// Checks that a challenge token only holds letters, digits, `-` and `_`.
pub fn valid_token(t: &str) -> (r: bool)
    ensures
        r == valid_token_spec(t@),
{
    let n = t.unicode_len();
    let mut i: usize = 0;
    while i < n
        invariant
            n == t@.len(),
            i <= n,
            forall|j: int| 0 <= j < i ==> is_token_char(#[trigger] t@[j]),
        decreases n - i,
    {
        if !is_valid_char(t.get_char(i)) {
            return false;
        }
        i += 1;
    }
    true
}

/// The directory of the proof files below the challenge directory.
pub open spec fn challs_dir(chall_dir: Seq<char>) -> Seq<char> {
    join_spec(chall_dir, "challs"@)
}

/// Proof files written in one session, and where they go.
pub struct Challenge {
    path: String,
    written: Vec<String>,
}

/// Relies on rand's `SliceRandom::choose_multiple` with the thread-local
/// generator: `min(amount, len)` elements of the pool, drawn without
/// repetition.
#[verifier::external_body]
fn choose_multiple(pool: &[usize], amount: usize) -> (r: Vec<usize>)
    ensures
        r@.len() == if amount <= pool@.len() {
            amount as int
        } else {
            pool@.len() as int
        },
        forall|i: int| 0 <= i < r@.len() ==> pool@.contains(#[trigger] r@[i]),
{
    pool.choose_multiple(&mut rand::thread_rng(), amount).cloned().collect()
}

impl Challenge {
    /// The directory that proof files are written to.
    pub closed spec fn dir(&self) -> Seq<char> {
        self.path@
    }

    /// The paths written in this session, in the order they were written.
    pub closed spec fn written_paths(&self) -> Seq<Seq<char>> {
        self.written@.map_values(|p: String| p@)
    }

    /// A session writing below `<chall_dir>/challs`, with nothing written yet.
    pub fn new(config: &Config) -> (r: Challenge)
        ensures
            r.dir() == challs_dir(config.system.chall_dir@),
            r.written_paths() == Seq::<Seq<char>>::empty(),
    {
        let r = Challenge { path: join(config.system.chall_dir.as_str(), "challs"), written: Vec::new() };
        assert(r.written_paths() =~= Seq::<Seq<char>>::empty());
        r
    }

    /// The path the proof for `token` is written to; an unsafe token is
    /// refused.
    pub fn proof_path(&self, token: &str) -> (r: Result<String, ChallengeError>)
        ensures
            valid_token_spec(token@) ==> (r matches Ok(p) && p@ == join_spec(self.dir(), token@)),
            !valid_token_spec(token@) ==> r == Err::<String, ChallengeError>(
                ChallengeError::InvalidToken,
            ),
    {
        if !valid_token(token) {
            return Err(ChallengeError::InvalidToken);
        }
        Ok(join(self.path.as_str(), token))
    }

    /// Notes that a proof was written to `path`, so that cleanup removes it.
    pub fn record(&mut self, path: String)
        ensures
            final(self).dir() == old(self).dir(),
            final(self).written_paths() == old(self).written_paths().push(path@),
    {
        self.written.push(path);
        assert(self.written_paths() =~= old(self).written_paths().push(path@));
    }

    /// Hands out every path written in this session and forgets them.
    pub fn take_written(&mut self) -> (r: Vec<String>)
        ensures
            final(self).dir() == old(self).dir(),
            final(self).written_paths() == Seq::<Seq<char>>::empty(),
            r@.map_values(|p: String| p@) == old(self).written_paths(),
    {
        let mut r: Vec<String> = Vec::new();
        core::mem::swap(&mut r, &mut self.written);
        assert(self.written_paths() =~= Seq::<Seq<char>>::empty());
        r
    }
}

/// A fresh token of `TOKEN_LEN` distinct characters drawn at random from the
/// token characters.
pub fn random_token() -> (r: String)
    ensures
        valid_token_spec(r@),
        r@.len() == TOKEN_LEN,
{
    proof {
        reveal_strlit("ABCDEFGHIJKLMNOPQRSTUVWXYZabcdefghijklmnopqrstuvwxyz0123456789-_");
    }
    let n = VALID_CHARS.unicode_len();
    let mut pool: Vec<usize> = Vec::new();
    let mut k: usize = 0;
    while k < n
        invariant
            k <= n,
            n == VALID_CHARS@.len(),
            pool@.len() == k,
            forall|j: int| 0 <= j < k ==> pool@[j] == j,
        decreases n - k,
    {
        pool.push(k);
        k += 1;
    }
    let picks = choose_multiple(pool.as_slice(), TOKEN_LEN);
    let mut r = String::new();
    let mut i: usize = 0;
    while i < picks.len()
        invariant
            i <= picks@.len(),
            picks@.len() == TOKEN_LEN,
            n == VALID_CHARS@.len(),
            n == 64,
            VALID_CHARS.is_ascii(),
            r@.len() == i,
            forall|j: int| 0 <= j < i ==> is_token_char(#[trigger] r@[j]),
            forall|j: int| 0 <= j < picks@.len() ==> pool@.contains(#[trigger] picks@[j]),
            forall|j: int| 0 <= j < pool@.len() ==> pool@[j] == j,
            pool@.len() == n,
            forall|j: int| 0 <= j < 64 ==> is_token_char(#[trigger] VALID_CHARS@[j]),
        decreases picks.len() - i,
    {
        let p = picks[i];
        assert(pool@.contains(p));
        let piece = VALID_CHARS.substring_ascii(p, p + 1);
        let ghost before = r@;
        r.append(piece);
        assert(r@ =~= before + seq![VALID_CHARS@[p as int]]);
        i += 1;
    }
    r
}

} // verus!
