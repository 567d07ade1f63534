//! The identity document served for the registry's DID.
use vstd::prelude::*;

use crate::identity::IdentityAgent;

verus! {

/// The fragment that names the registry's only key.
pub open spec fn key_fragment() -> Seq<char> {
    seq!['k', 'e', 'y', '-', '0']
}

/// The type of the verification method.
pub open spec fn key_type() -> Seq<char> {
    seq!['J', 's', 'o', 'n', 'W', 'e', 'b', 'K', 'e', 'y', '2', '0', '2', '0']
}

/// The full id of the key under `did`: `<did>#key-0`.
pub open spec fn key_id(did: Seq<char>) -> Seq<char> {
    did + seq!['#'] + key_fragment()
}

/// A public key entry of an identity document.
pub struct VerificationMethod<P> {
    pub id: String,
    pub controller: String,
    pub type_: String,
    pub public_key_jwk: P,
}

/// An identity document. The relationship lists hold fragments relative to
/// the document's id.
pub struct IdentityDocument<P> {
    pub id: String,
    pub verification_method: Vec<VerificationMethod<P>>,
    pub assertion_method: Vec<String>,
    pub authentication: Vec<String>,
}

/// The document as plain values: id, methods as (id, controller, type, key),
/// assertion fragments, authentication fragments.
pub open spec fn document_view<P>(d: IdentityDocument<P>) -> (
    Seq<char>,
    Seq<(Seq<char>, Seq<char>, Seq<char>, P)>,
    Seq<Seq<char>>,
    Seq<Seq<char>>,
) {
    (
        d.id@,
        d.verification_method@.map_values(
            |m: VerificationMethod<P>| (m.id@, m.controller@, m.type_@, m.public_key_jwk),
        ),
        d.assertion_method@.map_values(|f: String| f@),
        d.authentication@.map_values(|f: String| f@),
    )
}

/// The document of `did` whose one key is `public_key`, referenced by both
/// relationships.
pub open spec fn is_document_of<P>(d: IdentityDocument<P>, did: Seq<char>, public_key: P) -> bool {
    &&& d.id@ == did
    &&& d.verification_method@.len() == 1
    &&& d.verification_method@[0].id@ == key_id(did)
    &&& d.verification_method@[0].controller@ == did
    &&& d.verification_method@[0].type_@ == key_type()
    &&& d.verification_method@[0].public_key_jwk == public_key
    &&& d.assertion_method@.len() == 1
    &&& d.assertion_method@[0]@ == key_fragment()
    &&& d.authentication@.len() == 1
    &&& d.authentication@[0]@ == key_fragment()
}

fn key_fragment_string() -> (r: String)
    ensures
        r@ == key_fragment(),
{
    proof {
        reveal_strlit("key-0");
    }
    let r = String::from_str("key-0");
    proof {
        assert(r@ =~= key_fragment());
    }
    r
}

/// Builds the identity document of `agent`. `public_of` projects the
/// authorization key onto its public part, which is all the document holds.
pub fn build_document<K, P, F: Fn(&K) -> P>(agent: &IdentityAgent<K>, public_of: F) -> (d:
    IdentityDocument<P>)
    requires
        public_of.requires((agent.authorization_spec(),)),
    ensures
        d.id@ == agent.record.did@,
        exists|p: P|
            public_of.ensures((agent.authorization_spec(),), p) && #[trigger] is_document_of(
                d,
                agent.record.did@,
                p,
            ),
{
    let did = agent.did();
    let public_key = public_of(agent.authorization());
    proof {
        reveal_strlit("#");
        reveal_strlit("JsonWebKey2020");
    }
    let mut id = did.clone();
    id.append("#");
    id.append("key-0");
    proof {
        reveal_strlit("key-0");
        assert(id@ =~= key_id(did@));
    }
    let type_ = String::from_str("JsonWebKey2020");
    proof {
        assert(type_@ =~= key_type());
    }
    let method = VerificationMethod { id, controller: did.clone(), type_, public_key_jwk: public_key };
    let d = IdentityDocument {
        id: did.clone(),
        verification_method: vec![method],
        assertion_method: vec![key_fragment_string()],
        authentication: vec![key_fragment_string()],
    };
    assert(is_document_of(d, agent.record.did@, public_key));
    d
}

/// The document is fixed by the DID and the public key: two documents built
/// for the same agent and the same public key are the same values.
pub proof fn lemma_document_deterministic<P>(
    d1: IdentityDocument<P>,
    d2: IdentityDocument<P>,
    did: Seq<char>,
    public_key: P,
)
    requires
        is_document_of(d1, did, public_key),
        is_document_of(d2, did, public_key),
    ensures
        document_view(d1) == document_view(d2),
{
    let v1 = document_view(d1);
    let v2 = document_view(d2);
    assert(v1.1 =~= v2.1);
    assert(v1.2 =~= v2.2);
    assert(v1.3 =~= v2.3);
}

/// The document has exactly one verification method, and every entry of
/// both relationship lists, read relative to the document's id, names it.
pub proof fn lemma_relationships_resolve<P>(d: IdentityDocument<P>, did: Seq<char>, public_key: P)
    requires
        is_document_of(d, did, public_key),
    ensures
        d.verification_method@.len() == 1,
        forall|i: int|
            0 <= i < d.assertion_method@.len() ==> d.id@ + seq!['#'] + #[trigger] d.assertion_method@[i]@
                == d.verification_method@[0].id@,
        forall|i: int|
            0 <= i < d.authentication@.len() ==> d.id@ + seq!['#'] + #[trigger] d.authentication@[i]@
                == d.verification_method@[0].id@,
{
}

/// Building twice from the same agent with a projection that gives one
/// public key per key yields the same document both times.
pub proof fn lemma_build_document_pure<K, P, F: Fn(&K) -> P>(
    agent: IdentityAgent<K>,
    public_of: F,
    d1: IdentityDocument<P>,
    d2: IdentityDocument<P>,
)
    requires
        forall|p1: P, p2: P|
            public_of.ensures((agent.authorization_spec(),), p1) && public_of.ensures(
                (agent.authorization_spec(),),
                p2,
            ) ==> p1 == p2,
        exists|p: P|
            public_of.ensures((agent.authorization_spec(),), p) && #[trigger] is_document_of(
                d1,
                agent.record.did@,
                p,
            ),
        exists|p: P|
            public_of.ensures((agent.authorization_spec(),), p) && #[trigger] is_document_of(
                d2,
                agent.record.did@,
                p,
            ),
    ensures
        document_view(d1) == document_view(d2),
{
    let did = agent.record.did@;
    let k = agent.authorization_spec();
    let p1 = choose|p: P| public_of.ensures((k,), p) && #[trigger] is_document_of(d1, did, p);
    let p2 = choose|p: P| public_of.ensures((k,), p) && #[trigger] is_document_of(d2, did, p);
    assert(p1 == p2);
    lemma_document_deterministic(d1, d2, did, p1);
}

} // verus!
