//! Choosing the key that receives new ciphertext.
use vstd::prelude::*;

use crate::openpgp::{
    primary_encrypts, primary_key_id, primary_version, public_primary_encrypts,
    public_primary_key_id, public_primary_version, public_subkey_key_id, public_subkey_version,
    subkey_key_id, subkey_version, supported_version, public_subkey_at, public_subkey_count,
    public_subkey_encrypts, public_subkeys_of, subkey_encrypts,
};

verus! {

/// Where the selected encryption key sits within an identity.
#[derive(Clone, Copy, Debug, PartialEq, Eq, Structural)]
pub enum KeySlot {
    Primary,
    Subkey(usize),
}

/// The index of the first `true` in `flags`, or `flags.len()` when there is none.
pub open spec fn first_set(flags: Seq<bool>) -> nat
    decreases flags.len(),
{
    if flags.len() == 0 {
        0
    } else if flags[0] {
        0
    } else {
        1 + first_set(flags.drop_first())
    }
}

/// The selection policy: the primary key if it encrypts, else the first
/// subkey, in stored order, that encrypts.
pub open spec fn selection(primary: bool, subkeys: Seq<bool>) -> Option<KeySlot> {
    if primary {
        Some(KeySlot::Primary)
    } else if first_set(subkeys) < subkeys.len() {
        Some(KeySlot::Subkey(first_set(subkeys) as usize))
    } else {
        None
    }
}

pub proof fn lemma_first_set(flags: Seq<bool>)
    ensures
        first_set(flags) <= flags.len(),
        first_set(flags) < flags.len() ==> flags[first_set(flags) as int],
        forall|j: int| 0 <= j < first_set(flags) ==> !flags[j],
    decreases flags.len(),
{
    if flags.len() > 0 && !flags[0] {
        let rest = flags.drop_first();
        lemma_first_set(rest);
        assert forall|j: int| 0 <= j < first_set(flags) implies !flags[j] by {
            if j > 0 {
                assert(flags[j] == rest[j - 1]);
            }
        }
    }
}

pub proof fn lemma_first_set_is_first(flags: Seq<bool>, i: int)
    requires
        0 <= i < flags.len(),
        flags[i],
        forall|j: int| 0 <= j < i ==> !flags[j],
    ensures
        first_set(flags) == i,
    decreases flags.len(),
{
    if i > 0 {
        let rest = flags.drop_first();
        assert forall|j: int| 0 <= j < i - 1 implies !rest[j] by {
            assert(rest[j] == flags[j + 1]);
        }
        lemma_first_set_is_first(rest, i - 1);
    }
}

/// Applies the selection policy to the encryption capability of the primary
/// key and of each subkey.
pub fn select_slot(primary: bool, subkeys: &Vec<bool>) -> (r: Option<KeySlot>)
    ensures
        r == selection(primary, subkeys@),
{
    if primary {
        return Some(KeySlot::Primary);
    }
    let mut i: usize = 0;
    while i < subkeys.len()
        invariant
            !primary,
            i <= subkeys@.len(),
            forall|j: int| 0 <= j < i ==> !subkeys@[j],
        decreases subkeys@.len() - i,
    {
        if subkeys[i] {
            proof {
                lemma_first_set_is_first(subkeys@, i as int);
                assert(first_set(subkeys@) as usize == i);
            }
            return Some(KeySlot::Subkey(i));
        }
        i = i + 1;
    }
    proof {
        lemma_first_set(subkeys@);
        if first_set(subkeys@) < subkeys@.len() {
            assert(subkeys@[first_set(subkeys@) as int]);
        }
    }
    None
}

/// The encryption capability of each subkey of `k`, in stored order.
pub open spec fn subkey_flags(k: pgp::SignedPublicKey) -> Seq<bool> {
    public_subkeys_of(k).map_values(|s: pgp::SignedPublicSubKey| subkey_encrypts(s))
}

/// The slot that the selection policy picks within `k`.
pub open spec fn encryption_slot(k: pgp::SignedPublicKey) -> Option<KeySlot> {
    selection(primary_encrypts(k), subkey_flags(k))
}

/// A reference to either the primary key or one subkey of a public key.
#[derive(Debug)]
pub enum SignedPublicKeyOrSubkey<'a> {
    Key(&'a pgp::SignedPublicKey),
    SubKey(&'a pgp::SignedPublicSubKey),
}

impl<'a> SignedPublicKeyOrSubkey<'a> {
    /// The key id of the referenced key.
    pub open spec fn spec_key_id(self) -> Seq<u8> {
        match self {
            SignedPublicKeyOrSubkey::Key(k) => primary_key_id(*k),
            SignedPublicKeyOrSubkey::SubKey(s) => subkey_key_id(*s),
        }
    }

    /// The version number of the referenced key.
    pub open spec fn spec_version(self) -> u8 {
        match self {
            SignedPublicKeyOrSubkey::Key(k) => primary_version(*k),
            SignedPublicKeyOrSubkey::SubKey(s) => subkey_version(*s),
        }
    }

    /// The version number of the referenced key.
    pub fn version(&self) -> (r: u8)
        ensures
            r == self.spec_version(),
    {
        match self {
            SignedPublicKeyOrSubkey::Key(k) => public_primary_version(k),
            SignedPublicKeyOrSubkey::SubKey(s) => public_subkey_version(s),
        }
    }

    /// Whether the referenced key can encrypt.
    pub open spec fn spec_encrypts(self) -> bool {
        match self {
            SignedPublicKeyOrSubkey::Key(k) => primary_encrypts(*k),
            SignedPublicKeyOrSubkey::SubKey(s) => subkey_encrypts(*s),
        }
    }

    /// The key id of the referenced key: eight bytes that a session-key
    /// packet names its recipient by. Only keys of version 4 and 6 have one
    /// here; for others the result is `None`.
    pub fn key_id(&self) -> (r: Option<Vec<u8>>)
        ensures
            r is Some <==> supported_version(self.spec_version()),
            r matches Some(id) ==> id@ == self.spec_key_id() && id@.len() == 8,
    {
        let v = self.version();
        if v != 4 && v != 6 {
            return None;
        }
        match self {
            SignedPublicKeyOrSubkey::Key(k) => Some(public_primary_key_id(k)),
            SignedPublicKeyOrSubkey::SubKey(s) => Some(public_subkey_key_id(s)),
        }
    }

    /// Whether the referenced key can encrypt.
    pub fn is_encryption_key(&self) -> (r: bool)
        ensures
            r == self.spec_encrypts(),
    {
        match self {
            SignedPublicKeyOrSubkey::Key(k) => public_primary_encrypts(k),
            SignedPublicKeyOrSubkey::SubKey(s) => public_subkey_encrypts(s),
        }
    }
}

/// Whether `r` is what the selection policy picks within `k`.
pub open spec fn selected_in<'a>(k: pgp::SignedPublicKey, r: Option<SignedPublicKeyOrSubkey<'a>>) -> bool {
    match encryption_slot(k) {
        None => r is None,
        Some(KeySlot::Primary) => match r {
            Some(SignedPublicKeyOrSubkey::Key(p)) => *p == k,
            _ => false,
        },
        Some(KeySlot::Subkey(i)) => match r {
            Some(SignedPublicKeyOrSubkey::SubKey(s)) => *s == public_subkeys_of(k)[i as int],
            _ => false,
        },
    }
}

/// Picks the key of `key` that receives new ciphertext: the primary key if it
/// encrypts, else the first subkey that does.
pub fn get_encryption_key<'a>(key: &'a pgp::SignedPublicKey) -> (r: Option<SignedPublicKeyOrSubkey<'a>>)
    ensures
        selected_in(*key, r),
        r matches Some(t) ==> t.spec_encrypts(),
{
    let primary = public_primary_encrypts(key);
    let n = public_subkey_count(key);
    let mut flags: Vec<bool> = Vec::new();
    let mut i: usize = 0;
    while i < n
        invariant
            i <= n,
            n == public_subkeys_of(*key).len(),
            flags@ =~= subkey_flags(*key).subrange(0, i as int),
        decreases n - i,
    {
        let s = public_subkey_at(key, i);
        flags.push(public_subkey_encrypts(s));
        i = i + 1;
    }
    assert(flags@ =~= subkey_flags(*key));
    match select_slot(primary, &flags) {
        None => None,
        Some(KeySlot::Primary) => Some(SignedPublicKeyOrSubkey::Key(key)),
        Some(KeySlot::Subkey(j)) => {
            proof {
                lemma_first_set(flags@);
                assert(flags@[j as int] == subkey_encrypts(public_subkeys_of(*key)[j as int]));
            }
            Some(SignedPublicKeyOrSubkey::SubKey(public_subkey_at(key, j)))
        },
    }
}

/// The selector is deterministic: two results that both meet its contract on
/// the same public key are the same reference to the same key.
pub proof fn lemma_selection_deterministic<'a>(
    k: pgp::SignedPublicKey,
    r1: Option<SignedPublicKeyOrSubkey<'a>>,
    r2: Option<SignedPublicKeyOrSubkey<'a>>,
)
    requires
        selected_in(k, r1),
        selected_in(k, r2),
    ensures
        r1 == r2,
        r1 matches Some(t1) ==> (r2 matches Some(t2) && t1.spec_key_id() == t2.spec_key_id()),
{
}

} // verus!
