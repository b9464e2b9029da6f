//! The unsigned payload an external signer must sign, and its JSON wire
//! form.  Field renderings follow the signer extensions' expectations:
//! spec version, transaction version and nonce are the big-endian bytes of
//! the integer hex-prefixed, while call data, tip, era and the two block
//! hashes use the chain's canonical encodings before hex rendering.

use vstd::prelude::*;
use crate::encoder::CallSchema;
use crate::errors::EncodingError;
use crate::hexstr::{spec_hex, hex_0x, lemma_spec_hex_len};
use crate::scale::{spec_compact, spec_u32_be, spec_u64_be, u32_be_bytes, u64_be_bytes, compact_u128};
use crate::text::{json_escaped, push_escaped, push_str_chars, str_chars, chars_string, spec_dec};
use vstd::string::StringExecFns;

verus! {

/// Facts the connected chain declares, immutable for the session.
pub struct ChainIdentity {
    /// The 32-byte genesis hash.
    pub genesis_hash: Vec<u8>,
    /// Current runtime spec version.
    pub spec_version: u32,
    /// Current transaction version.
    pub transaction_version: u32,
    /// The signed-extension identifiers the chain declares, in its order.
    pub signed_extensions: Vec<String>,
    /// Where the conviction-vote call lives in the current metadata.
    pub vote_schema: CallSchema,
    /// Where the system-remark call lives in the current metadata.
    pub remark_schema: CallSchema,
}

impl ChainIdentity {
    pub open spec fn wf(&self) -> bool {
        self.genesis_hash@.len() == 32
    }
}

impl Clone for ChainIdentity {
    fn clone(&self) -> (r: Self)
        ensures
            r.genesis_hash@ == self.genesis_hash@,
            r.spec_version == self.spec_version,
            r.transaction_version == self.transaction_version,
            r.signed_extensions@ == self.signed_extensions@,
            r.vote_schema == self.vote_schema,
            r.remark_schema == self.remark_schema,
            r.wf() == self.wf(),
    {
        ChainIdentity {
            genesis_hash: crate::encoder::clone_bytes(&self.genesis_hash),
            spec_version: self.spec_version,
            transaction_version: self.transaction_version,
            signed_extensions: clone_strings(&self.signed_extensions),
            vote_schema: self.vote_schema,
            remark_schema: self.remark_schema,
        }
    }
}

/// The validity window of a transaction.  This deployment pins the
/// immortal era: the transaction never expires, and the mortality
/// checkpoint equals the genesis hash, which keeps checkpoint and era
/// consistent by construction.
#[derive(Clone, Copy, Debug, PartialEq, Eq, Structural)]
pub enum Era {
    Immortal,
}

/// The canonical one-byte encoding of the era descriptor.
pub open spec fn spec_era_bytes(era: Era) -> Seq<u8> {
    seq![0u8]
}

pub fn era_bytes(era: Era) -> (r: Vec<u8>)
    ensures
        r@ == spec_era_bytes(era),
{
    let mut r: Vec<u8> = Vec::new();
    r.push(0u8);
    proof {
        assert(r@ =~= spec_era_bytes(era));
    }
    r
}

/// Exactly the fields the external signer hashes and signs, already
/// rendered.  Constructed fresh per signing attempt and never mutated.
pub struct UnsignedPayload {
    pub spec_version_hex: String,
    pub transaction_version_hex: String,
    pub address: String,
    pub block_hash_hex: String,
    pub block_number_hex: String,
    pub era_hex: String,
    pub genesis_hash_hex: String,
    pub method_hex: String,
    pub nonce_hex: String,
    pub signed_extensions: Vec<String>,
    pub tip_hex: String,
    /// Protocol version tag of the payload shape; fixed at 4.
    pub version: u32,
}

/// A hex rendering with the `0x` prefix, as a character sequence.
pub open spec fn spec_hex_0x(b: Seq<u8>) -> Seq<char> {
    seq!['0', 'x'] + spec_hex(b)
}

/// Builds the payload for one signing attempt.  Fails only when the chain
/// identity is malformed (a genesis hash that is not 32 bytes), which
/// indicates a metadata/identity mismatch.
pub fn build_payload(
    call_data: &Vec<u8>,
    nonce: u64,
    identity: &ChainIdentity,
    tip: u128,
    era: Era,
    address: &String,
) -> (r: Result<UnsignedPayload, EncodingError>)
    ensures
        r is Ok <==> identity.wf(),
        r matches Err(e) ==> e == EncodingError::MalformedIdentity,
        r matches Ok(p) ==> {
            &&& p.spec_version_hex@ == spec_hex_0x(spec_u32_be(identity.spec_version))
            &&& p.transaction_version_hex@ == spec_hex_0x(spec_u32_be(identity.transaction_version))
            &&& p.address@ == address@
            &&& p.block_hash_hex@ == spec_hex_0x(identity.genesis_hash@)
            &&& p.block_number_hex@ == "0x00000000"@
            &&& p.era_hex@ == spec_hex_0x(spec_era_bytes(era))
            &&& p.genesis_hash_hex@ == spec_hex_0x(identity.genesis_hash@)
            &&& p.method_hex@ == spec_hex_0x(call_data@)
            &&& p.nonce_hex@ == spec_hex_0x(spec_u64_be(nonce))
            &&& p.signed_extensions@ == identity.signed_extensions@
            &&& p.tip_hex@ == spec_hex_0x(spec_compact(tip as nat))
            &&& p.version == 4
        },
{
    if identity.genesis_hash.len() != 32 {
        return Err(EncodingError::MalformedIdentity);
    }
    let spec_version_bytes = u32_be_bytes(identity.spec_version);
    let transaction_version_bytes = u32_be_bytes(identity.transaction_version);
    let nonce_bytes = u64_be_bytes(nonce);
    let tip_bytes = compact_u128(tip);
    let era_scale = era_bytes(era);
    let p = UnsignedPayload {
        spec_version_hex: hex_0x(spec_version_bytes.as_slice()),
        transaction_version_hex: hex_0x(transaction_version_bytes.as_slice()),
        address: address.clone(),
        block_hash_hex: hex_0x(identity.genesis_hash.as_slice()),
        block_number_hex: <String as StringExecFns>::from_str("0x00000000"),
        era_hex: hex_0x(era_scale.as_slice()),
        genesis_hash_hex: hex_0x(identity.genesis_hash.as_slice()),
        method_hex: hex_0x(call_data.as_slice()),
        nonce_hex: hex_0x(nonce_bytes.as_slice()),
        signed_extensions: clone_strings(&identity.signed_extensions),
        tip_hex: hex_0x(tip_bytes.as_slice()),
        version: 4,
    };
    Ok(p)
}

/// A copy of a vector of strings, element for element.
pub fn clone_strings(v: &Vec<String>) -> (r: Vec<String>)
    ensures
        r@ == v@,
{
    let mut r: Vec<String> = Vec::new();
    let mut i: usize = 0;
    while i < v.len()
        invariant
            i <= v@.len(),
            r@ == v@.take(i as int),
        decreases v@.len() - i,
    {
        r.push(v[i].clone());
        proof {
            assert(r@ =~= v@.take(i + 1));
        }
        i = i + 1;
    }
    proof {
        assert(v@.take(v@.len() as int) =~= v@);
    }
    r
}

/// A JSON string literal: the escaped characters between quotes.
pub open spec fn spec_quoted(s: Seq<char>) -> Seq<char> {
    seq!['"'] + json_escaped(s) + seq!['"']
}

/// The first `n` elements rendered as JSON string literals, joined by
/// commas.
pub open spec fn spec_joined_prefix(elems: Seq<Seq<char>>, n: int) -> Seq<char>
    decreases n,
{
    if n <= 0 {
        Seq::empty()
    } else if n == 1 {
        spec_quoted(elems[0])
    } else {
        spec_joined_prefix(elems, n - 1) + seq![','] + spec_quoted(elems[n - 1])
    }
}

/// A JSON array of string literals.
pub open spec fn spec_string_array(elems: Seq<Seq<char>>) -> Seq<char> {
    seq!['['] + spec_joined_prefix(elems, elems.len() as int) + seq![']']
}

/// Appends the JSON array form of the strings to `out`.
pub fn push_string_array(out: &mut Vec<char>, v: &Vec<String>)
    ensures
        final(out)@ == old(out)@ + spec_string_array(v@.map_values(|s: String| s@)),
{
    let ghost orig = out@;
    let ghost elems = v@.map_values(|s: String| s@);
    out.push('[');
    let mut i: usize = 0;
    while i < v.len()
        invariant
            i <= v@.len(),
            elems == v@.map_values(|s: String| s@),
            elems.len() == v@.len(),
            out@ == orig + seq!['['] + spec_joined_prefix(elems, i as int),
        decreases v@.len() - i,
    {
        if i > 0 {
            out.push(',');
        }
        out.push('"');
        let chars = str_chars(v[i].as_str());
        push_escaped(out, &chars);
        out.push('"');
        proof {
            assert(elems[i as int] == v@[i as int]@);
            if i == 0 {
                assert(spec_joined_prefix(elems, 1) == spec_quoted(elems[0]));
                assert(out@ =~= orig + seq!['['] + spec_joined_prefix(elems, 1));
            } else {
                assert(spec_joined_prefix(elems, i + 1) == spec_joined_prefix(elems, i as int)
                    + seq![','] + spec_quoted(elems[i as int]));
                assert(out@ =~= orig + seq!['['] + spec_joined_prefix(elems, i + 1));
            }
        }
        i = i + 1;
    }
    out.push(']');
    proof {
        assert(out@ =~= orig + spec_string_array(elems));
    }
}

/// The exact JSON object handed to the external signer, with the field
/// names the signer extensions expect, keys in serialization order.
pub open spec fn spec_payload_json(p: &UnsignedPayload) -> Seq<char> {
    "{\"address\":\""@ + json_escaped(p.address@)
        + "\",\"blockHash\":\""@ + json_escaped(p.block_hash_hex@)
        + "\",\"blockNumber\":\""@ + json_escaped(p.block_number_hex@)
        + "\",\"era\":\""@ + json_escaped(p.era_hex@)
        + "\",\"genesisHash\":\""@ + json_escaped(p.genesis_hash_hex@)
        + "\",\"method\":\""@ + json_escaped(p.method_hex@)
        + "\",\"nonce\":\""@ + json_escaped(p.nonce_hex@)
        + "\",\"signedExtensions\":"@
        + spec_string_array(p.signed_extensions@.map_values(|s: String| s@))
        + ",\"specVersion\":\""@ + json_escaped(p.spec_version_hex@)
        + "\",\"tip\":\""@ + json_escaped(p.tip_hex@)
        + "\",\"transactionVersion\":\""@ + json_escaped(p.transaction_version_hex@)
        + "\",\"version\":"@ + spec_dec(p.version as nat) + "}"@
}

impl UnsignedPayload {
    /// Renders the payload as the JSON object the signer receives.
    pub fn render_json(&self) -> (r: String)
        requires
            self.version == 4,
        ensures
            r@ == spec_payload_json(self),
    {
        let mut out: Vec<char> = Vec::new();
        push_str_chars(&mut out, "{\"address\":\"");
        let address = str_chars(self.address.as_str());
        push_escaped(&mut out, &address);
        push_str_chars(&mut out, "\",\"blockHash\":\"");
        let block_hash = str_chars(self.block_hash_hex.as_str());
        push_escaped(&mut out, &block_hash);
        push_str_chars(&mut out, "\",\"blockNumber\":\"");
        let block_number = str_chars(self.block_number_hex.as_str());
        push_escaped(&mut out, &block_number);
        push_str_chars(&mut out, "\",\"era\":\"");
        let era = str_chars(self.era_hex.as_str());
        push_escaped(&mut out, &era);
        push_str_chars(&mut out, "\",\"genesisHash\":\"");
        let genesis = str_chars(self.genesis_hash_hex.as_str());
        push_escaped(&mut out, &genesis);
        push_str_chars(&mut out, "\",\"method\":\"");
        let method = str_chars(self.method_hex.as_str());
        push_escaped(&mut out, &method);
        push_str_chars(&mut out, "\",\"nonce\":\"");
        let nonce = str_chars(self.nonce_hex.as_str());
        push_escaped(&mut out, &nonce);
        push_str_chars(&mut out, "\",\"signedExtensions\":");
        push_string_array(&mut out, &self.signed_extensions);
        push_str_chars(&mut out, ",\"specVersion\":\"");
        let spec_version = str_chars(self.spec_version_hex.as_str());
        push_escaped(&mut out, &spec_version);
        push_str_chars(&mut out, "\",\"tip\":\"");
        let tip = str_chars(self.tip_hex.as_str());
        push_escaped(&mut out, &tip);
        push_str_chars(&mut out, "\",\"transactionVersion\":\"");
        let transaction_version = str_chars(self.transaction_version_hex.as_str());
        push_escaped(&mut out, &transaction_version);
        push_str_chars(&mut out, "\",\"version\":");
        out.push('4');
        push_str_chars(&mut out, "}");
        proof {
            assert(spec_dec(4) =~= seq!['4']);
            assert(out@ =~= spec_payload_json(self));
        }
        chars_string(&out)
    }
}

/// The nonce is rendered as exactly the eight big-endian bytes of the
/// integer, hex-prefixed: eighteen characters for every nonce.  This is a
/// representation choice distinct from the scale-style compact encoding
/// used for the tip (a small nonce's compact form would be one byte, not
/// eight).
pub proof fn lemma_nonce_rendering(nonce: u64)
    ensures
        spec_hex_0x(spec_u64_be(nonce)).len() == 18,
        spec_u64_be(nonce).len() == 8,
        nonce < 64 ==> spec_compact(nonce as nat).len() == 1,
{
    lemma_spec_hex_len(spec_u64_be(nonce));
}

} // verus!
