//! Resolution of fixed test identifiers into typed account values.
//!
//! An [`AccountId`] is a twenty-byte address written in source form as a
//! string of forty hex digits; parsing is total over well-formed addresses
//! and fails explicitly otherwise.  A [`SessionKey`] is the opaque
//! block-production identity derived deterministically from a named seed.

use vstd::prelude::*;

use crate::errors::BuildError;

verus! {

/// The value of a single hex digit, or 16 for any other character.
pub open spec fn hex_digit_value(c: char) -> int {
    match c {
        '0' => 0,
        '1' => 1,
        '2' => 2,
        '3' => 3,
        '4' => 4,
        '5' => 5,
        '6' => 6,
        '7' => 7,
        '8' => 8,
        '9' => 9,
        'a' => 10,
        'b' => 11,
        'c' => 12,
        'd' => 13,
        'e' => 14,
        'f' => 15,
        'A' => 10,
        'B' => 11,
        'C' => 12,
        'D' => 13,
        'E' => 14,
        'F' => 15,
        _ => 16,
    }
}

/// Whether `c` is a hex digit, in either case.
pub open spec fn is_hex_digit(c: char) -> bool {
    hex_digit_value(c) < 16
}

/// Whether the pair of characters standing for byte `j` are both hex digits.
pub open spec fn hex_pair_ok(s: Seq<char>, j: int) -> bool {
    is_hex_digit(s[2 * j]) && is_hex_digit(s[2 * j + 1])
}

/// Whether `s` is a well-formed account address: exactly forty hex digits.
pub open spec fn valid_account_hex(s: Seq<char>) -> bool {
    s.len() == 40 && forall|j: int| 0 <= j < 20 ==> #[trigger] hex_pair_ok(s, j)
}

/// Byte `j` of the address written as `s`.
pub open spec fn hex_byte_at(s: Seq<char>, j: int) -> u8 {
    (hex_digit_value(s[2 * j]) * 16 + hex_digit_value(s[2 * j + 1])) as u8
}

/// The twenty bytes of the address written as `s`.
pub open spec fn account_bytes_of(s: Seq<char>) -> Seq<u8> {
    Seq::new(20, |j: int| hex_byte_at(s, j))
}

/// The value of one hex digit character, or `None` for any other character.
fn hex_val(c: char) -> (r: Option<u8>)
    ensures
        r matches Some(v) ==> is_hex_digit(c) && v as int == hex_digit_value(c),
        r is None ==> !is_hex_digit(c),
{
    match c {
        '0' => Some(0),
        '1' => Some(1),
        '2' => Some(2),
        '3' => Some(3),
        '4' => Some(4),
        '5' => Some(5),
        '6' => Some(6),
        '7' => Some(7),
        '8' => Some(8),
        '9' => Some(9),
        'a' => Some(10),
        'b' => Some(11),
        'c' => Some(12),
        'd' => Some(13),
        'e' => Some(14),
        'f' => Some(15),
        'A' => Some(10),
        'B' => Some(11),
        'C' => Some(12),
        'D' => Some(13),
        'E' => Some(14),
        'F' => Some(15),
        _ => None,
    }
}

/// A fixed-length twenty-byte account address.
#[derive(Debug, PartialEq, Eq)]
pub struct AccountId {
    bytes: Vec<u8>,
}

impl View for AccountId {
    type V = Seq<u8>;

    closed spec fn view(&self) -> Seq<u8> {
        self.bytes@
    }
}

impl AccountId {
    /// An address always holds exactly twenty bytes.
    pub open spec fn wf(&self) -> bool {
        self@.len() == 20
    }

    /// Parse an account address from a string of exactly forty hex digits.
    ///
    /// Succeeds exactly on well-formed addresses and yields their bytes;
    /// every other input is rejected as [`BuildError::MalformedAddress`].
    pub fn from_hex(s: &str) -> (r: Result<AccountId, BuildError>)
        ensures
            r matches Ok(a) ==> valid_account_hex(s@) && a.wf() && a@ == account_bytes_of(s@),
            r matches Err(e) ==> !valid_account_hex(s@) && e == BuildError::MalformedAddress,
    {
        let n = s.unicode_len();
        if n != 40 {
            return Err(BuildError::MalformedAddress);
        }
        let mut bytes: Vec<u8> = Vec::new();
        let mut j: usize = 0;
        while j < 20
            invariant
                s@.len() == 40,
                j <= 20,
                bytes@.len() == j,
                forall|k: int| 0 <= k < j ==> #[trigger] hex_pair_ok(s@, k),
                forall|k: int| 0 <= k < j ==> bytes@[k] == hex_byte_at(s@, k),
            decreases 20 - j,
        {
            let hi = s.get_char(2 * j);
            let lo = s.get_char(2 * j + 1);
            match (hex_val(hi), hex_val(lo)) {
                (Some(h), Some(l)) => {
                    bytes.push(h * 16 + l);
                },
                _ => {
                    proof {
                        assert(!hex_pair_ok(s@, j as int));
                    }
                    return Err(BuildError::MalformedAddress);
                },
            }
            j += 1;
        }
        proof {
            assert(bytes@ =~= account_bytes_of(s@));
        }
        Ok(AccountId { bytes })
    }

    /// The twenty bytes of the address.
    pub fn as_bytes(&self) -> (r: &Vec<u8>)
        ensures
            r@ == self@,
    {
        &self.bytes
    }
}

impl Clone for AccountId {
    /// Cloning an address keeps its bytes.
    fn clone(&self) -> (r: Self)
        ensures
            r@ == self@,
    {
        let bytes = self.bytes.clone();
        proof {
            assert(bytes@ =~= self.bytes@);
        }
        AccountId { bytes }
    }
}

/// The session key derived from a seed name: an opaque deterministic function
/// of the name alone, computed by the external cryptographic primitive.
pub uninterp spec fn session_key_of(seed: Seq<char>) -> Seq<u8>;

/// Whether a seed name can be turned into a derivation path: it must be
/// non-empty and free of `/`, which the path syntax reserves.
pub open spec fn valid_seed(s: Seq<char>) -> bool {
    s.len() > 0 && forall|i: int| 0 <= i < s.len() ==> s[i] != '/'
}

/// Relies on `sp_core::crypto::Pair::from_string` and `Pair::public` for
/// `sp_core::sr25519::Pair`: derivation of the key pair named by the secret
/// URI `//{seed}` over the built-in development phrase is a pure function of
/// the seed characters, it succeeds whenever the seed is non-empty and holds
/// no `/` (the URI then parses as one hard junction, and sr25519 derivation
/// never fails), and an sr25519 public key is exactly 32 bytes.
#[verifier::external_body]
fn derive_sr25519_public(seed: &str) -> (r: Option<Vec<u8>>)
    ensures
        r matches Some(k) ==> k@ == session_key_of(seed@) && k@.len() == 32,
        valid_seed(seed@) ==> r is Some,
{
    let uri = format!("//{}", seed);
    let pair = <sp_core::sr25519::Pair as sp_core::crypto::Pair>::from_string(&uri, None).ok()?;
    let public = <sp_core::sr25519::Pair as sp_core::crypto::Pair>::public(&pair);
    Some(AsRef::<[u8]>::as_ref(&public).to_vec())
}

/// The opaque public identity a collator uses for block production.
#[derive(Debug, PartialEq, Eq)]
pub struct SessionKey {
    bytes: Vec<u8>,
}

impl View for SessionKey {
    type V = Seq<u8>;

    closed spec fn view(&self) -> Seq<u8> {
        self.bytes@
    }
}

impl SessionKey {
    /// A session key always holds exactly 32 bytes.
    pub open spec fn wf(&self) -> bool {
        self@.len() == 32
    }

    /// Deterministically derive the session key named by `seed`.
    ///
    /// The same seed always yields the same key; a non-empty seed without
    /// `/` always derives successfully.
    pub fn derive(seed: &str) -> (r: Option<SessionKey>)
        ensures
            r matches Some(k) ==> k.wf() && k@ == session_key_of(seed@),
            valid_seed(seed@) ==> r is Some,
    {
        match derive_sr25519_public(seed) {
            Some(bytes) => Some(SessionKey { bytes }),
            None => None,
        }
    }

    /// The 32 bytes of the key.
    pub fn as_bytes(&self) -> (r: &Vec<u8>)
        ensures
            r@ == self@,
    {
        &self.bytes
    }
}

impl Clone for SessionKey {
    /// Cloning a session key keeps its bytes.
    fn clone(&self) -> (r: Self)
        ensures
            r@ == self@,
    {
        let bytes = self.bytes.clone();
        proof {
            assert(bytes@ =~= self.bytes@);
        }
        SessionKey { bytes }
    }
}

/// Deriving a session key from one seed is deterministic: any two keys that
/// both carry the derivation of the same seed are byte-identical.
pub proof fn lemma_session_key_deterministic(k1: SessionKey, k2: SessionKey, seed: Seq<char>)
    requires
        k1@ == session_key_of(seed),
        k2@ == session_key_of(seed),
    ensures
        k1@ == k2@,
{
}

} // verus!
