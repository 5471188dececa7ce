use vstd::prelude::*;
use vstd::string::StringSliceAdditionalSpecFns;

use crate::algo::{algo_name, P3dParams};
use crate::crypto::{
    encrypt_seeded, is_curve_point, max_sealed_len, schnorr_public, schnorr_verifies, sealed,
    sign_with_seed,
};
use crate::error::MiningError;
use crate::hexcodec::{decode_hex, encode_hex, hex_bytes, is_hex_byte, is_hex_text, lower_hex};
use crate::params::{decode_mining_params, decodes_to, fields_decode, fields_present, MiningParams};
use crate::queue::Fifo;

verus! {

/// A candidate found by the local search process.
pub struct MiningObj {
    pub obj_id: u64,
    pub obj: Vec<u8>,
}

/// A candidate bound to the round it was found in, with its hash.
pub struct MiningProposal {
    pub params: MiningParams,
    pub hash: [u8; 32],
    pub obj_id: u64,
    pub obj: Vec<u8>,
}

/// What is sent to the pool, before it is serialised and encrypted.
pub struct Payload {
    pub pool_id: String,
    pub member_id: String,
    pub pre_hash: [u8; 32],
    pub parent_hash: [u8; 32],
    pub algo: String,
    /// The pow difficulty, as 32 big-endian bytes.
    pub dfclty: [u8; 32],
    pub hash: [u8; 32],
    pub obj_id: u64,
    pub obj: Vec<u8>,
}

/// An encrypted payload with the member's signature over it, ready to send.
pub struct SealedProposal {
    pub ciphertext: Vec<u8>,
    pub member_id: String,
    /// The 64-byte signature over the ciphertext, in lower-case hex.
    pub signature: String,
}

/// The key bytes with the first `0x` in them taken out.
pub open spec fn without_first_0x(s: Seq<u8>) -> Seq<u8>
    decreases s.len(),
{
    if s.len() < 2 {
        s
    } else if s[0] == 48 && s[1] == 120 {
        s.subrange(2, s.len() as int)
    } else {
        seq![s[0]] + without_first_0x(s.drop_first())
    }
}

/// Removes the first `0x` from the bytes, wherever it stands.
pub fn strip_first_0x(s: &[u8]) -> (r: Vec<u8>)
    ensures
        r@ == without_first_0x(s@),
{
    let n = s.len();
    let mut out: Vec<u8> = Vec::new();
    let mut found = false;
    let mut i: usize = 0;
    assert(s@.subrange(0, n as int) =~= s@);
    assert(out@ + without_first_0x(s@) =~= without_first_0x(s@));
    while i < n
        invariant
            n == s@.len(),
            i <= n,
            without_first_0x(s@) == out@ + (if found {
                s@.subrange(i as int, n as int)
            } else {
                without_first_0x(s@.subrange(i as int, n as int))
            }),
        decreases n - i,
    {
        let ghost rest = s@.subrange(i as int, n as int);
        if !found && i + 1 < n && s[i] == 48u8 && s[i + 1] == 120u8 {
            assert(rest.subrange(2, rest.len() as int) =~= s@.subrange(i + 2, n as int));
            found = true;
            i = i + 2;
        } else {
            proof {
                if !found {
                    assert(rest.drop_first() =~= s@.subrange(i + 1, n as int));
                    if rest.len() < 2 {
                        assert(rest.len() == 1);
                        assert(without_first_0x(rest.drop_first()) == rest.drop_first());
                    }
                    assert(without_first_0x(rest) =~= seq![s[i as int]] + without_first_0x(
                        rest.drop_first(),
                    ));
                } else {
                    assert(rest =~= seq![s[i as int]] + s@.subrange(i + 1, n as int));
                }
            }
            out.push(s[i]);
            assert(out@ + (if found {
                s@.subrange(i + 1, n as int)
            } else {
                without_first_0x(s@.subrange(i + 1, n as int))
            }) =~= out@.drop_last() + (if found {
                rest
            } else {
                without_first_0x(rest)
            }));
            i = i + 1;
        }
    }
    assert(s@.subrange(n as int, n as int) =~= Seq::<u8>::empty());
    assert(out@ + Seq::<u8>::empty() =~= out@);
    out
}

proof fn lemma_without_x_unchanged(s: Seq<u8>)
    requires
        forall|i: int| 0 <= i < s.len() ==> s[i] != 120,
    ensures
        without_first_0x(s) == s,
    decreases s.len(),
{
    if s.len() >= 2 {
        assert(s[1] != 120);
        lemma_without_x_unchanged(s.drop_first());
        assert(seq![s[0]] + s.drop_first() =~= s);
    }
}

/// A key written with a leading `0x` and the same key written without it
/// give the same text to decode: hex digits never hold an `x`.
pub proof fn lemma_key_prefix_ignored(h: Seq<u8>)
    requires
        is_hex_text(h),
    ensures
        without_first_0x(seq![48u8, 120u8] + h) == without_first_0x(h),
        without_first_0x(h) == h,
{
    assert forall|i: int| 0 <= i < h.len() implies h[i] != 120 by {
        assert(is_hex_byte(h[i]));
    }
    lemma_without_x_unchanged(h);
    let t = seq![48u8, 120u8] + h;
    assert(t.subrange(2, t.len() as int) =~= h);
}

/// The secret-key text, once its first `0x` is removed.
pub open spec fn key_hex(key: &str) -> Seq<u8> {
    without_first_0x(key.spec_bytes())
}

/// The domain-separation context of the member's signatures.
pub open spec fn signing_context() -> Seq<u8> {
    "Mining pool".spec_bytes()
}

/// The seed of the generator that encrypts a proposal: the proposal's hash,
/// byte for byte, which is how a 256-bit hash is encoded.
pub open spec fn proposal_seed(hash: Seq<u8>) -> Seq<u8> {
    hash
}

/// Derives the encryption seed from a proposal's hash.
pub fn encryption_seed(hash: &[u8; 32]) -> (r: [u8; 32])
    ensures
        r@ == proposal_seed(hash@),
{
    *hash
}

/// Equal hashes, messages and keys give equal ciphertexts, and distinct hashes
/// give distinct encryption seeds.
pub proof fn lemma_sealing_deterministic(
    pk: Seq<u8>,
    msg: Seq<u8>,
    hash1: Seq<u8>,
    hash2: Seq<u8>,
)
    ensures
        hash1 == hash2 ==> sealed(pk, msg, proposal_seed(hash1)) == sealed(
            pk,
            msg,
            proposal_seed(hash2),
        ),
        hash1 != hash2 ==> proposal_seed(hash1) != proposal_seed(hash2),
{
}

/// The shared state of the adapter: identity, the current round and the two queues.
pub struct MiningContext {
    p3d_params: P3dParams,
    pool_id: String,
    member_id: String,
    seed: [u8; 32],
    cur_state: Option<MiningParams>,
    in_queue: Fifo<MiningObj>,
    out_queue: Fifo<MiningProposal>,
}

impl MiningContext {
    /// The configured shape of the search space.
    pub closed spec fn spec_p3d_params(&self) -> P3dParams {
        self.p3d_params
    }

    /// The pool this member works for.
    pub closed spec fn spec_pool_id(&self) -> String {
        self.pool_id
    }

    /// This member's identity at the pool.
    pub closed spec fn spec_member_id(&self) -> String {
        self.member_id
    }

    /// The 32-byte secret seed that the member's signing key is expanded from.
    pub closed spec fn spec_seed(&self) -> [u8; 32] {
        self.seed
    }

    /// The round currently in force, if one was received.
    pub closed spec fn state(&self) -> Option<MiningParams> {
        self.cur_state
    }

    /// Candidates waiting to be searched, oldest first.
    pub closed spec fn inbound(&self) -> Seq<MiningObj> {
        self.in_queue@
    }

    /// Proposals waiting to be sent, oldest first.
    pub closed spec fn outbound(&self) -> Seq<MiningProposal> {
        self.out_queue@
    }

    /// Builds the context from the identity and a hex-encoded 32-byte secret
    /// seed, in which the first `0x` is ignored.
    pub fn new(p3d_params: P3dParams, pool_id: String, member_id: String, key: &str) -> (r: Result<
        MiningContext,
        MiningError,
    >)
        ensures
            !is_hex_text(key_hex(key)) ==> (r matches Err(e) && e == MiningError::KeyEncoding),
            is_hex_text(key_hex(key)) && hex_bytes(key_hex(key)).len() != 32 ==> (r matches Err(
                e,
            ) && e == MiningError::KeyLength),
            r is Ok <==> is_hex_text(key_hex(key)) && hex_bytes(key_hex(key)).len() == 32,
            r matches Ok(c) ==> {
                &&& c.spec_p3d_params() == p3d_params
                &&& c.spec_pool_id() == pool_id
                &&& c.spec_member_id() == member_id
                &&& c.spec_seed()@ == hex_bytes(key_hex(key))
                &&& c.state() is None
                &&& c.inbound() == Seq::<MiningObj>::empty()
                &&& c.outbound() == Seq::<MiningProposal>::empty()
            },
    {
        let text = strip_first_0x(key.as_bytes());
        let decoded = match decode_hex(text.as_slice()) {
            Some(v) => v,
            None => return Err(MiningError::KeyEncoding),
        };
        if decoded.len() != 32 {
            return Err(MiningError::KeyLength);
        }
        let mut seed = [0u8; 32];
        let mut i: usize = 0;
        while i < 32
            invariant
                decoded@.len() == 32,
                i <= 32,
                forall|j: int| 0 <= j < i ==> seed@[j] == decoded@[j],
            decreases 32 - i,
        {
            seed[i] = decoded[i];
            i = i + 1;
        }
        assert(seed@ =~= decoded@);
        Ok(MiningContext {
            p3d_params,
            pool_id,
            member_id,
            seed,
            cur_state: None,
            in_queue: Fifo::new(),
            out_queue: Fifo::new(),
        })
    }

    pub fn p3d_params(&self) -> (r: P3dParams)
        ensures
            r == self.spec_p3d_params(),
    {
        self.p3d_params
    }

    pub fn pool_id(&self) -> (r: &str)
        ensures
            r@ == self.spec_pool_id()@,
    {
        self.pool_id.as_str()
    }

    pub fn member_id(&self) -> (r: &str)
        ensures
            r@ == self.spec_member_id()@,
    {
        self.member_id.as_str()
    }

    /// The round currently in force, if one was received.
    pub fn cur_state(&self) -> (r: Option<MiningParams>)
        ensures
            r == self.state(),
    {
        self.cur_state
    }

    /// Accepts a candidate from the search process: an object id and its data.
    /// A call without both is malformed and changes nothing; otherwise the
    /// candidate joins the back of the inbound queue and the call is
    /// acknowledged with 0.
    pub fn on_new_object(&mut self, obj_id: Option<u64>, obj: Option<&str>) -> (r: Result<
        u64,
        MiningError,
    >)
        ensures
            (obj_id is None || obj is None) ==> {
                &&& r == Err::<u64, MiningError>(MiningError::MalformedCall)
                &&& final(self).inbound() == old(self).inbound()
            },
            (obj_id is Some && obj is Some) ==> {
                &&& r == Ok::<u64, MiningError>(0)
                &&& final(self).inbound().len() == old(self).inbound().len() + 1
                &&& final(self).inbound().drop_last() == old(self).inbound()
                &&& final(self).inbound().last().obj_id == obj_id->0
                &&& final(self).inbound().last().obj@ == obj->0.spec_bytes()
            },
            final(self).state() == old(self).state(),
            final(self).outbound() == old(self).outbound(),
            final(self).spec_p3d_params() == old(self).spec_p3d_params(),
            final(self).spec_pool_id() == old(self).spec_pool_id(),
            final(self).spec_member_id() == old(self).spec_member_id(),
            final(self).spec_seed() == old(self).spec_seed(),
    {
        match (obj_id, obj) {
            (Some(obj_id), Some(obj)) => {
                let data = obj.as_bytes_vec();
                self.in_queue.push(MiningObj { obj_id, obj: data });
                assert(self.in_queue@.drop_last() =~= old(self).in_queue@);
                Ok(0)
            },
            _ => Err(MiningError::MalformedCall),
        }
    }

    /// Takes the oldest waiting candidate, if any.
    pub fn pop_object(&mut self) -> (r: Option<MiningObj>)
        ensures
            old(self).inbound().len() == 0 ==> (r is None) && final(self).inbound()
                == old(self).inbound(),
            old(self).inbound().len() > 0 ==> r == Some(old(self).inbound()[0])
                && final(self).inbound() == old(self).inbound().drop_first(),
            final(self).state() == old(self).state(),
            final(self).outbound() == old(self).outbound(),
            final(self).spec_p3d_params() == old(self).spec_p3d_params(),
            final(self).spec_pool_id() == old(self).spec_pool_id(),
            final(self).spec_member_id() == old(self).spec_member_id(),
            final(self).spec_seed() == old(self).spec_seed(),
    {
        self.in_queue.pop()
    }

    /// Queues a completed proposal for sending.
    pub fn push_to_queue(&mut self, proposal: MiningProposal)
        ensures
            final(self).outbound() == old(self).outbound().push(proposal),
            final(self).inbound() == old(self).inbound(),
            final(self).state() == old(self).state(),
            final(self).spec_p3d_params() == old(self).spec_p3d_params(),
            final(self).spec_pool_id() == old(self).spec_pool_id(),
            final(self).spec_member_id() == old(self).spec_member_id(),
            final(self).spec_seed() == old(self).spec_seed(),
    {
        self.out_queue.push(proposal);
    }

    /// Takes the oldest proposal waiting to be sent, if any.
    pub fn pop_proposal(&mut self) -> (r: Option<MiningProposal>)
        ensures
            old(self).outbound().len() == 0 ==> (r is None) && final(self).outbound()
                == old(self).outbound(),
            old(self).outbound().len() > 0 ==> r == Some(old(self).outbound()[0])
                && final(self).outbound() == old(self).outbound().drop_first(),
            final(self).inbound() == old(self).inbound(),
            final(self).state() == old(self).state(),
            final(self).spec_p3d_params() == old(self).spec_p3d_params(),
            final(self).spec_pool_id() == old(self).spec_pool_id(),
            final(self).spec_member_id() == old(self).spec_member_id(),
            final(self).spec_seed() == old(self).spec_seed(),
    {
        self.out_queue.pop()
    }

    /// Applies the pool's answer to a parameter request: where all five fields
    /// decode, their values replace the current round as a whole; otherwise
    /// the round in force stays as it was and the error says why.
    pub fn apply_mining_params(&mut self, fields: &Vec<Option<String>>) -> (r: Result<
        (),
        MiningError,
    >)
        ensures
            !fields_present(fields@) ==> r == Err::<(), MiningError>(MiningError::MissingField),
            fields_present(fields@) && !fields_decode(fields@) ==> r == Err::<(), MiningError>(
                MiningError::InvalidField,
            ),
            r is Ok <==> fields_present(fields@) && fields_decode(fields@),
            r is Ok ==> (final(self).state() matches Some(p) && decodes_to(fields@, p)),
            r is Err ==> final(self).state() == old(self).state(),
            final(self).inbound() == old(self).inbound(),
            final(self).outbound() == old(self).outbound(),
            final(self).spec_p3d_params() == old(self).spec_p3d_params(),
            final(self).spec_pool_id() == old(self).spec_pool_id(),
            final(self).spec_member_id() == old(self).spec_member_id(),
            final(self).spec_seed() == old(self).spec_seed(),
    {
        match decode_mining_params(fields) {
            Ok(p) => {
                self.cur_state = Some(p);
                Ok(())
            },
            Err(e) => Err(e),
        }
    }

    /// The wire payload for a proposal: the identity, the proposal's own round
    /// and candidate, and the algorithm's name. Shared state is not read.
    pub fn payload(&self, proposal: &MiningProposal) -> (r: Payload)
        ensures
            r.pool_id == self.spec_pool_id(),
            r.member_id == self.spec_member_id(),
            r.pre_hash == proposal.params.pre_hash,
            r.parent_hash == proposal.params.parent_hash,
            r.algo@ == algo_name(self.spec_p3d_params().algo),
            r.dfclty == proposal.params.pow_dfclty,
            r.hash == proposal.hash,
            r.obj_id == proposal.obj_id,
            r.obj@ == proposal.obj@,
    {
        let obj = proposal.obj.clone();
        assert(obj@ =~= proposal.obj@);
        Payload {
            pool_id: self.pool_id.clone(),
            member_id: self.member_id.clone(),
            pre_hash: proposal.params.pre_hash,
            parent_hash: proposal.params.parent_hash,
            algo: self.p3d_params.algo.as_str().to_owned(),
            dfclty: proposal.params.pow_dfclty,
            hash: proposal.hash,
            obj_id: proposal.obj_id,
            obj,
        }
    }

    /// Signs a message with the member's key under the pool's signing context;
    /// the signature verifies under the member's public key.
    pub fn sign(&self, msg: &[u8]) -> (r: [u8; 64])
        ensures
            schnorr_verifies(schnorr_public(self.spec_seed()@), signing_context(), msg@, r@),
    {
        let ctx = "Mining pool".as_bytes();
        match sign_with_seed(&self.seed, ctx, msg) {
            Some(sig) => sig,
            None => [0u8; 64],
        }
    }

    /// Encrypts a serialised payload for the pool of the proposal's round,
    /// with randomness seeded from the proposal's hash, and signs the
    /// ciphertext. Fails only where encryption fails, which it does not for a
    /// key on the curve and a message within AES-GCM's limit.
    pub fn package_proposal(&self, proposal: &MiningProposal, message: &[u8]) -> (r: Result<
        SealedProposal,
        MiningError,
    >)
        ensures
            sealed(proposal.params.pub_key@, message@, proposal_seed(proposal.hash@)) is None
                ==> (r matches Err(e) && e == MiningError::Encryption),
            r is Ok <==> sealed(
                proposal.params.pub_key@,
                message@,
                proposal_seed(proposal.hash@),
            ) is Some,
            is_curve_point(proposal.params.pub_key@) && message@.len() <= max_sealed_len()
                ==> r is Ok,
            r matches Ok(s) ==> {
                &&& sealed(proposal.params.pub_key@, message@, proposal_seed(proposal.hash@))
                    == Some(s.ciphertext@)
                &&& s.member_id == self.spec_member_id()
                &&& exists|sig: Seq<u8>|
                    #![trigger lower_hex(sig)]
                    sig.len() == 64 && s.signature@ == lower_hex(sig) && schnorr_verifies(
                        schnorr_public(self.spec_seed()@),
                        signing_context(),
                        s.ciphertext@,
                        sig,
                    )
            },
    {
        let seed = encryption_seed(&proposal.hash);
        let ciphertext = match encrypt_seeded(&proposal.params.pub_key, message, seed) {
            Some(c) => c,
            None => return Err(MiningError::Encryption),
        };
        let sig = self.sign(ciphertext.as_slice());
        let signature = encode_hex(&sig);
        assert(sig@.len() == 64);
        Ok(SealedProposal { ciphertext, member_id: self.member_id.clone(), signature })
    }
}

impl MiningProposal {
    /// Binds a candidate and its hash to the round it was found in.
    pub fn new(params: MiningParams, hash: [u8; 32], obj: MiningObj) -> (r: MiningProposal)
        ensures
            r.params == params,
            r.hash == hash,
            r.obj_id == obj.obj_id,
            r.obj == obj.obj,
    {
        MiningProposal { params, hash, obj_id: obj.obj_id, obj: obj.obj }
    }
}

} // verus!
