//! The registry's persisted identity and how it is reconciled with the
//! address the server runs under.
use vstd::prelude::*;

verus! {

/// The characters of `did:web:`.
pub open spec fn did_web_prefix() -> Seq<char> {
    seq!['d', 'i', 'd', ':', 'w', 'e', 'b', ':']
}

/// The web DID bound to a serving address.
pub open spec fn did_web(address: Seq<char>) -> Seq<char> {
    did_web_prefix() + address
}

/// Computes `did:web:<address>`.
pub fn did_for_address(address: &str) -> (did: String)
    ensures
        did@ == did_web(address@),
{
    proof {
        reveal_strlit("did:web:");
    }
    let mut did = String::from_str("did:web:");
    did.append(address);
    proof {
        assert(did_web_prefix() =~= "did:web:"@);
    }
    did
}


/// What the identity file holds: the DID it was created for and the key
/// material of the registry.
pub struct IdentityRecord<K> {
    pub did: String,
    pub vc_key: K,
}

/// The identity file as read at start-up.
pub enum StoredIdentity<K> {
    /// No identity file exists.
    Absent,
    /// A file exists but its content is not an identity record.
    Corrupt,
    /// A file exists and holds this record.
    Present(IdentityRecord<K>),
}

/// Why no identity could be established.
#[derive(Clone, Copy, Debug, PartialEq, Eq, Structural)]
pub enum IdentityError {
    /// The identity file exists but cannot be read as a record.
    Corrupt,
    /// Writing or deleting the identity file failed.
    Persistence,
}

/// The live identity of the registry. One key serves both as attestation
/// and as authorization key.
pub struct IdentityAgent<K> {
    pub record: IdentityRecord<K>,
}

impl<K> IdentityAgent<K> {
    pub open spec fn authorization_spec(&self) -> &K {
        &self.record.vc_key
    }

    pub fn did(&self) -> (r: &String)
        ensures
            *r == self.record.did,
    {
        &self.record.did
    }

    /// The key that signs what the registry attests.
    pub fn attestation(&self) -> (r: &K)
        ensures
            *r == self.record.vc_key,
    {
        &self.record.vc_key
    }

    /// The key that authorizes the registry's messages.
    pub fn authorization(&self) -> (r: &K)
        ensures
            *r == self.record.vc_key,
    {
        &self.record.vc_key
    }
}

/// The result of reconciling the identity file with the serving address:
/// the agent, and what has to happen to the file.
pub struct Bootstrap<K> {
    pub agent: IdentityAgent<K>,
    /// The stale file must be deleted first.
    pub delete_stale: bool,
    /// The agent's record must be written to the file.
    pub save: bool,
}

/// Whether a stored identity is valid for the serving address.
pub open spec fn reusable<K>(address: Seq<char>, stored: StoredIdentity<K>) -> bool {
    stored is Present && stored->Present_0.did@ == did_web(address)
}

/// What `bootstrap` returns: the stored record when it matches the address;
/// an error when the file is corrupt; otherwise a record made of the new DID
/// and the fresh key, to be saved after deleting any stale file.
pub open spec fn bootstrap_post<K>(
    address: Seq<char>,
    stored: StoredIdentity<K>,
    fresh_key: K,
    r: Result<Bootstrap<K>, IdentityError>,
) -> bool {
    if stored is Corrupt {
        r == Err::<Bootstrap<K>, IdentityError>(IdentityError::Corrupt)
    } else if reusable(address, stored) {
        &&& r is Ok
        &&& r->Ok_0.agent.record == stored->Present_0
        &&& !r->Ok_0.delete_stale
        &&& !r->Ok_0.save
    } else {
        &&& r is Ok
        &&& r->Ok_0.agent.record.did@ == did_web(address)
        &&& r->Ok_0.agent.record.vc_key == fresh_key
        &&& r->Ok_0.delete_stale == stored is Present
        &&& r->Ok_0.save
    }
}

/// What the identity file holds once the actions of `b` were carried out.
pub open spec fn stored_after<K>(stored: StoredIdentity<K>, b: Bootstrap<K>) -> StoredIdentity<K> {
    if b.save {
        StoredIdentity::Present(b.agent.record)
    } else if b.delete_stale {
        StoredIdentity::Absent
    } else {
        stored
    }
}

/// Reconciles the identity file with the serving address. A matching record
/// is reused; a record for another address is discarded and, like a missing
/// one, replaced by a new record holding `fresh_key`.
pub fn bootstrap<K>(address: &str, stored: StoredIdentity<K>, fresh_key: K) -> (r: Result<
    Bootstrap<K>,
    IdentityError,
>)
    ensures
        bootstrap_post(address@, stored, fresh_key, r),
{
    let did = did_for_address(address);
    match stored {
        StoredIdentity::Corrupt => Err(IdentityError::Corrupt),
        StoredIdentity::Present(record) => {
            if record.did == did {
                Ok(Bootstrap { agent: IdentityAgent { record }, delete_stale: false, save: false })
            } else {
                Ok(create_identity(did, fresh_key, true))
            }
        },
        StoredIdentity::Absent => Ok(create_identity(did, fresh_key, false)),
    }
}

/// A new identity for `did` with `key`, to be saved.
fn create_identity<K>(did: String, key: K, delete_stale: bool) -> (b: Bootstrap<K>)
    ensures
        b.agent.record.did == did,
        b.agent.record.vc_key == key,
        b.delete_stale == delete_stale,
        b.save,
{
    Bootstrap { agent: IdentityAgent { record: IdentityRecord { did, vc_key: key } }, delete_stale, save: true }
}

/// Restarting under the same address keeps the identity: the second
/// bootstrap reuses the DID and key of the first and leaves the file alone.
pub proof fn lemma_restart_keeps_identity<K>(
    address: Seq<char>,
    stored: StoredIdentity<K>,
    first_key: K,
    second_key: K,
    first: Bootstrap<K>,
    second: Result<Bootstrap<K>, IdentityError>,
)
    requires
        bootstrap_post(address, stored, first_key, Ok(first)),
        bootstrap_post(address, stored_after(stored, first), second_key, second),
    ensures
        second is Ok,
        second->Ok_0.agent.record == first.agent.record,
        !second->Ok_0.save,
        !second->Ok_0.delete_stale,
{
}

/// Distinct addresses have distinct DIDs.
pub proof fn lemma_did_web_injective(a: Seq<char>, b: Seq<char>)
    requires
        a != b,
    ensures
        did_web(a) != did_web(b),
{
    if did_web(a) == did_web(b) {
        assert(did_web(a).skip(8) =~= a);
        assert(did_web(b).skip(8) =~= b);
    }
}

/// Restarting under another address discards the record of the first: the
/// identity is recreated for the new address and the stale file is deleted.
pub proof fn lemma_address_change_regenerates<K>(
    first_address: Seq<char>,
    second_address: Seq<char>,
    stored: StoredIdentity<K>,
    first_key: K,
    second_key: K,
    first: Bootstrap<K>,
    second: Result<Bootstrap<K>, IdentityError>,
)
    requires
        first_address != second_address,
        bootstrap_post(first_address, stored, first_key, Ok(first)),
        bootstrap_post(second_address, stored_after(stored, first), second_key, second),
    ensures
        second is Ok,
        second->Ok_0.agent.record.did@ == did_web(second_address),
        second->Ok_0.agent.record.vc_key == second_key,
        second->Ok_0.delete_stale,
        second->Ok_0.save,
        stored_after(stored_after(stored, first), second->Ok_0) == StoredIdentity::Present(
            second->Ok_0.agent.record,
        ),
{
    lemma_did_web_injective(first_address, second_address);
}

} // verus!
