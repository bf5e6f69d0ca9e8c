//! Bearer-token authentication.
//!
//! A caller proves its identity by presenting a 32-byte shared secret in an
//! `Authorization: Bearer` header. Each recognized caller role owns one
//! secret; a route accepts a request when the presented bytes match the
//! secret of at least one role it allows.
//!
//! The comparison is side-channel resistant: a candidate of the right
//! length is compared against the secret of **every** allowed role with a
//! constant-time equality primitive, and the per-role results are folded
//! together without short-circuiting, so response time does not reveal
//! which role's secret came close to matching. Only the initial length
//! check may exit early.

use vstd::prelude::*;
use vstd::slice::slice_subrange;
use crate::json::{json_obj_new, json_obj_push, json_str, JsonModel, JsonValue};

verus! {

/// A class of caller recognized by the hub.
#[derive(Clone, Copy, PartialEq, Eq, Structural, Debug)]
pub enum Token {
    Frontend,
    Deploy,
    Oauth,
}

/// The role secrets, loaded once at process start and immutable for the
/// process lifetime. Construction is the only mutation path.
pub struct Credentials {
    frontend: [u8; 32],
    deploy: [u8; 32],
    oauth: [u8; 32],
}

impl Credentials {
    /// The secret bytes bound to one role.
    pub closed spec fn spec_for(self, token: Token) -> Seq<u8> {
        match token {
            Token::Frontend => self.frontend@,
            Token::Deploy => self.deploy@,
            Token::Oauth => self.oauth@,
        }
    }

    /// Freezes the role secrets handed over by the startup code.
    pub fn new(frontend: [u8; 32], deploy: [u8; 32], oauth: [u8; 32]) -> (r: Credentials)
        ensures
            r.spec_for(Token::Frontend) == frontend@,
            r.spec_for(Token::Deploy) == deploy@,
            r.spec_for(Token::Oauth) == oauth@,
    {
        Credentials { frontend, deploy, oauth }
    }

    fn secret_of(&self, token: Token) -> (r: &[u8; 32])
        ensures
            r@ == self.spec_for(token),
    {
        match token {
            Token::Frontend => &self.frontend,
            Token::Deploy => &self.deploy,
            Token::Oauth => &self.oauth,
        }
    }
}

/// Relies on `constant_time_eq::constant_time_eq_32`: returns whether the
/// two 32-byte arrays hold the same bytes, in time independent of where
/// they differ.
#[verifier::external_body]
fn constant_time_eq_32(a: &[u8; 32], b: &[u8; 32]) -> (r: bool)
    ensures
        r == (a@ == b@),
{
    constant_time_eq::constant_time_eq_32(a, b)
}

/// Relies on `std::hint::black_box`: returns its argument unchanged. It
/// serves purely as an optimisation barrier around the match accumulator.
#[verifier::external_body]
fn barrier(b: u8) -> (r: u8)
    ensures
        r == b,
{
    std::hint::black_box(b)
}

/// Whether the candidate bytes authenticate as at least one of the listed
/// roles: exactly 32 bytes long and equal to some listed role's secret.
pub open spec fn spec_check_matches(
    creds: Credentials,
    list: Seq<Token>,
    bytes: Seq<u8>,
) -> bool {
    &&& bytes.len() == 32
    &&& exists|i: int| 0 <= i < list.len() && bytes == creds.spec_for(#[trigger] list[i])
}

/// Authenticates candidate bytes against every listed role.
///
/// Candidates that are not exactly 32 bytes long are rejected up front; for
/// well-sized candidates, every listed role's secret is compared in
/// constant time and the results are folded with a non-short-circuiting
/// `or`, so the number of comparisons never depends on which role matched.
pub fn check_matches(creds: &Credentials, list: &[Token], bytes: &[u8]) -> (r: bool)
    ensures
        r == spec_check_matches(*creds, list@, bytes@),
{
    if bytes.len() != 32 {
        return false;
    }
    let mut buffer: [u8; 32] = [0; 32];
    let mut j: usize = 0;
    while j < 32
        invariant
            j <= 32,
            bytes@.len() == 32,
            forall|k: int| 0 <= k < j ==> buffer@[k] == bytes@[k],
        decreases 32 - j,
    {
        buffer[j] = bytes[j];
        j += 1;
    }
    proof {
        assert(buffer@ =~= bytes@);
    }

    let mut acc: u8 = 0;
    let mut i: usize = 0;
    while i < list.len()
        invariant
            i <= list@.len(),
            buffer@ == bytes@,
            bytes@.len() == 32,
            acc == 0 || acc == 1,
            (acc == 1) == exists|k: int|
                0 <= k < i && bytes@ == creds.spec_for(#[trigger] list@[k]),
        decreases list@.len() - i,
    {
        let hit = constant_time_eq_32(&buffer, creds.secret_of(list[i]));
        let hit_bit: u8 = if hit {
            1
        } else {
            0
        };
        let ghost acc_before = acc;
        acc = barrier(barrier(hit_bit) | barrier(acc));
        proof {
            assert((hit_bit | acc_before == 1) == (hit_bit == 1 || acc_before == 1)
                && (hit_bit | acc_before == 0) == (hit_bit == 0 && acc_before == 0))
                by (bit_vector)
                requires
                    hit_bit == 0 || hit_bit == 1,
                    acc_before == 0 || acc_before == 1,
            ;
            if hit {
                assert(bytes@ == creds.spec_for(list@[i as int]));
            }
            if acc == 1 {
                assert(exists|k: int|
                    0 <= k < i + 1 && bytes@ == creds.spec_for(#[trigger] list@[k]));
            }
        }
        i += 1;
    }
    acc == 1
}

/// The raw bytes of an inbound `Authorization` header.
///
/// The transport layer extracts the header value verbatim; whether it
/// authenticates is decided here, never there.
#[derive(Clone, Debug)]
pub struct AuthHeader {
    data: Vec<u8>,
}

/// The bytes of the literal prefix `Bearer ` (with its trailing space).
pub open spec fn spec_bearer_prefix() -> Seq<u8> {
    seq![66u8, 101u8, 97u8, 114u8, 101u8, 114u8, 32u8]
}

/// The token carried by a header value: the bytes after the `Bearer `
/// prefix, or nothing when the prefix is absent.
pub open spec fn spec_bearer_token(data: Seq<u8>) -> Option<Seq<u8>> {
    if data.len() >= 7 && data.subrange(0, 7) == spec_bearer_prefix() {
        Some(data.subrange(7, data.len() as int))
    } else {
        None
    }
}

impl AuthHeader {
    /// The header value as presented, byte for byte.
    pub closed spec fn spec_data(self) -> Seq<u8> {
        self.data@
    }

    /// Wraps a header value captured by the transport layer.
    pub fn new(data: Vec<u8>) -> (r: AuthHeader)
        ensures
            r.spec_data() == data@,
    {
        AuthHeader { data }
    }

    /// Whether this header authenticates as one of the listed roles: it
    /// must carry the `Bearer ` prefix, and the bytes after the prefix
    /// must pass [`check_matches`].
    pub fn check_matches(&self, creds: &Credentials, list: &[Token]) -> (r: bool)
        ensures
            r == match spec_bearer_token(self.spec_data()) {
                Some(token) => spec_check_matches(*creds, list@, token),
                None => false,
            },
    {
        if self.data.len() < 7 {
            return false;
        }
        let prefix: [u8; 7] = [66, 101, 97, 114, 101, 114, 32];
        let mut i: usize = 0;
        while i < 7
            invariant
                i <= 7,
                self.data@.len() >= 7,
                prefix@ == spec_bearer_prefix(),
                forall|k: int| 0 <= k < i ==> self.data@[k] == spec_bearer_prefix()[k],
            decreases 7 - i,
        {
            if self.data[i] != prefix[i] {
                proof {
                    assert(self.spec_data().subrange(0, 7) != spec_bearer_prefix());
                }
                return false;
            }
            i += 1;
        }
        proof {
            assert(self.spec_data().subrange(0, 7) =~= spec_bearer_prefix());
        }
        let stripped = slice_subrange(self.data.as_slice(), 7, self.data.len());
        check_matches(creds, list, stripped)
    }
}

/// The admission decision for one inbound request: it passes only when
/// it carries an authorization header whose bearer token authenticates
/// as one of the roles this route allows. A request without the header
/// never passes, and nothing is dispatched for a request that does not
/// pass.
pub fn authorize(creds: &Credentials, header: Option<&AuthHeader>, list: &[Token]) -> (r: bool)
    ensures
        r == match header {
            Some(h) => match spec_bearer_token(h.spec_data()) {
                Some(token) => spec_check_matches(*creds, list@, token),
                None => false,
            },
            None => false,
        },
{
    match header {
        Some(h) => h.check_matches(creds, list),
        None => false,
    }
}

/// The fixed reply for a request whose bearer token is missing or does not
/// authenticate: an unauthorized status and a non-empty error body, chosen
/// before any domain handler could run.
pub fn unauthorized_body() -> (r: JsonValue)
    ensures
        r@ == JsonModel::Obj(
            Seq::<(Seq<char>, JsonModel)>::empty().push(
                ("err"@, JsonModel::Str("Unauthorized access."@)),
            ),
        ),
{
    let mut body = json_obj_new();
    json_obj_push(&mut body, "err", json_str("Unauthorized access."));
    body
}

/// The status code sent with [`unauthorized_body`].
pub const UNAUTHORIZED_STATUS: u16 = 401;

} // verus!
