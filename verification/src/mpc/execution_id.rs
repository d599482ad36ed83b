//! Execution identifiers that every party derives on its own and agrees on.

use vstd::prelude::*;
use crate::text::{concat3, be_bytes_u16, be_bytes_u64, push_be_u16, push_be_u64, lemma_be_bytes_u16_injective, lemma_be_bytes_u64_injective};

verus! {

/// The identifier bytes of a protocol run: the UTF-8 bytes of the protocol
/// name, then the party count and the agreed timestamp, both big-endian.
pub open spec fn shared_execution_id(protocol: Seq<char>, n: u16, timestamp: u64) -> Seq<u8> {
    vstd::utf8::encode_utf8(protocol) + be_bytes_u16(n) + be_bytes_u64(timestamp)
}

/// The bytes from which every party of a run builds the same execution id.
pub fn shared_execution_id_bytes(protocol: &str, n: u16, timestamp: u64) -> (id: Vec<u8>)
    ensures
        id@ == shared_execution_id(protocol@, n, timestamp),
{
    let mut id = protocol.as_bytes_vec();
    push_be_u16(&mut id, n);
    push_be_u64(&mut id, timestamp);
    id
}

/// The execution id that an initiating node proposes for `phase` at the
/// timestamp whose text is `timestamp_text`.
pub open spec fn proposed_execution_id(phase: Seq<char>, timestamp_text: Seq<char>) -> Seq<u8> {
    vstd::utf8::encode_utf8(phase + "-"@ + timestamp_text)
}

/// The execution id that an initiating node proposes: the UTF-8 bytes of
/// the phase name, a hyphen, and the text of the proposal's timestamp.
pub fn execution_id_from_parts(phase: &str, timestamp_text: &str) -> (id: Vec<u8>)
    ensures
        id@ == proposed_execution_id(phase@, timestamp_text@),
{
    let text = concat3(phase, "-", timestamp_text);
    text.as_str().as_bytes_vec()
}

/// The party count that a signing run folds into its execution id: the
/// number of signers, truncated to 16 bits.
pub fn signing_party_count(signers: &[u16]) -> (n: u16)
    ensures
        n as int == signers@.len() % 0x10000,
{
    let len = signers.len();
    (len % 0x10000) as u16
}

/// Proposals whose texts differ propose different execution ids.
proof fn lemma_proposals_differ(p1: Seq<char>, p2: Seq<char>, t: Seq<char>)
    requires
        p1 + "-"@ + t != p2 + "-"@ + t,
    ensures
        proposed_execution_id(p1, t) != proposed_execution_id(p2, t),
{
    vstd::utf8::encode_utf8_decode_utf8(p1 + "-"@ + t);
    vstd::utf8::encode_utf8_decode_utf8(p2 + "-"@ + t);
}

/// For one timestamp, the aux generation, keygen and signing phases propose
/// three different execution ids.
pub proof fn law_phases_propose_different_ids(timestamp_text: Seq<char>)
    ensures
        proposed_execution_id("aux"@, timestamp_text) != proposed_execution_id("keygen"@, timestamp_text),
        proposed_execution_id("aux"@, timestamp_text) != proposed_execution_id("signing"@, timestamp_text),
        proposed_execution_id("keygen"@, timestamp_text) != proposed_execution_id("signing"@, timestamp_text),
{
    reveal_strlit("aux");
    reveal_strlit("keygen");
    reveal_strlit("signing");
    reveal_strlit("-");
    let t = timestamp_text;
    assert(("aux"@ + "-"@ + t)[0] == 'a');
    assert(("keygen"@ + "-"@ + t)[0] == 'k');
    assert(("signing"@ + "-"@ + t)[0] == 's');
    lemma_proposals_differ("aux"@, "keygen"@, t);
    lemma_proposals_differ("aux"@, "signing"@, t);
    lemma_proposals_differ("keygen"@, "signing"@, t);
}

/// Runs of one protocol agree on their execution id only when they agree on
/// the party count and on the timestamp.
pub proof fn lemma_shared_execution_id_injective(protocol: Seq<char>, n1: u16, t1: u64, n2: u16, t2: u64)
    requires
        shared_execution_id(protocol, n1, t1) == shared_execution_id(protocol, n2, t2),
    ensures
        n1 == n2,
        t1 == t2,
{
    let p = vstd::utf8::encode_utf8(protocol);
    let a = shared_execution_id(protocol, n1, t1);
    let b = shared_execution_id(protocol, n2, t2);
    let l = p.len() as int;
    assert(a.subrange(l, l + 2) =~= be_bytes_u16(n1));
    assert(b.subrange(l, l + 2) =~= be_bytes_u16(n2));
    assert(a.subrange(l + 2, l + 10) =~= be_bytes_u64(t1));
    assert(b.subrange(l + 2, l + 10) =~= be_bytes_u64(t2));
    lemma_be_bytes_u16_injective(n1, n2);
    lemma_be_bytes_u64_injective(t1, t2);
}

} // verus!
