//! Advisory-lock keys that serialise concurrent writers of the memory graph.
use vstd::prelude::*;

use crate::meaning::{opens, takes};
use crate::queries::texts::memory_locks::law_takes_lock_stands_for_its_values;
use crate::statement::{executes, str_texts, BindView, Statement, StatementView};
use crate::text::{decimal, decimal_text};

use vstd::utf8::encode_utf8;

verus! {

pub const ADVISORY_LOCK_SQL: &'static str = "SELECT pg_advisory_xact_lock($1, $2)";

/// First FNV-1a basis.
pub const HIGH_BASIS: u32 = 0x811c_9dc5;

/// Mixed into the first basis to get the second.
pub const LOW_MIX: u32 = 0x9e37_79b9;

pub const FNV_PRIME: u32 = 0x0100_0193;

/// One FNV-1a round.
pub open spec fn fnv_round(hash: u32, byte: u8) -> u32 {
    (hash ^ (byte as u32)).wrapping_mul(FNV_PRIME)
}

/// The 32-bit FNV-1a hash of `bytes`, continued from `seed`.
pub open spec fn fnv1a(seed: u32, bytes: Seq<u8>) -> u32
    decreases bytes.len(),
{
    if bytes.len() == 0 {
        seed
    } else {
        fnv_round(fnv1a(seed, bytes.drop_last()), bytes.last())
    }
}

/// Absorbs each field followed by a zero byte.
pub open spec fn absorb_fields(seed: u32, fields: Seq<Seq<char>>) -> u32
    decreases fields.len(),
{
    if fields.len() == 0 {
        seed
    } else {
        let h = fnv1a(absorb_fields(seed, fields.drop_last()), encode_utf8(fields.last()));
        fnv_round(h, 0)
    }
}

/// The lock key of some fields under a prefix: two independent hashes.
pub open spec fn lock_key(prefix: Seq<u8>, fields: Seq<Seq<char>>) -> (i32, i32) {
    (
        absorb_fields(fnv1a(HIGH_BASIS, prefix), fields) as i32,
        absorb_fields(fnv1a(HIGH_BASIS ^ LOW_MIX, prefix), fields) as i32,
    )
}

/// The 32-bit FNV-1a hash of `bytes`, continued from `seed`.
pub fn fnv1a32(seed: u32, bytes: &[u8]) -> (r: u32)
    ensures
        r == fnv1a(seed, bytes@),
{
    let mut hash: u32 = seed;
    let mut i: usize = 0;
    while i < bytes.len()
        invariant
            i <= bytes.len(),
            hash == fnv1a(seed, bytes@.take(i as int)),
        decreases bytes.len() - i,
    {
        hash = (hash ^ (bytes[i] as u32)).wrapping_mul(FNV_PRIME);
        i = i + 1;
        assert(bytes@.take(i as int).drop_last() =~= bytes@.take(i - 1));
    }
    assert(bytes@.take(i as int) =~= bytes@);
    hash
}

fn absorb_field(seed: u32, field: &str) -> (r: u32)
    ensures
        r == fnv_round(fnv1a(seed, encode_utf8(field@)), 0),
{
    let h: u32 = fnv1a32(seed, field.as_bytes());
    (h ^ 0).wrapping_mul(FNV_PRIME)
}

/// The lock key of some fields under a prefix. Fields are separated by a
/// zero byte, so moving a character from one field to the next changes what
/// is hashed.
pub fn memory_advisory_lock_key(prefix: &[u8], fields: &[&str]) -> (r: (i32, i32))
    ensures
        r == lock_key(prefix@, str_texts(fields@)),
{
    let mut high: u32 = fnv1a32(HIGH_BASIS, prefix);
    let mut low: u32 = fnv1a32(HIGH_BASIS ^ LOW_MIX, prefix);
    let ghost all = str_texts(fields@);
    let mut i: usize = 0;
    while i < fields.len()
        invariant
            i <= fields.len(),
            all == str_texts(fields@),
            high == absorb_fields(fnv1a(HIGH_BASIS, prefix@), all.take(i as int)),
            low == absorb_fields(fnv1a(HIGH_BASIS ^ LOW_MIX, prefix@), all.take(i as int)),
        decreases fields.len() - i,
    {
        high = absorb_field(high, fields[i]);
        low = absorb_field(low, fields[i]);
        assert(all[i as int] == fields@[i as int]@);
        i = i + 1;
        assert(all.take(i as int).drop_last() =~= all.take(i - 1));
    }
    assert(all.take(i as int) =~= all);
    (high as i32, low as i32)
}

/// The key that serialises writers of one entity identity.
pub fn memory_entity_identity_lock_key(name: &str, entity_type: &str) -> (r: (i32, i32))
    ensures
        r == lock_key(encode_utf8("memory:entity:"@), seq![name@, entity_type@]),
{
    let fields: Vec<&str> = vec![name, entity_type];
    assert(str_texts(fields@) =~= seq![name@, entity_type@]);
    memory_advisory_lock_key("memory:entity:".as_bytes(), fields.as_slice())
}

/// The key that serialises writers of one entity's observations.
pub fn memory_entity_observation_lock_key(entity_id: i64) -> (r: (i32, i32))
    ensures
        r == lock_key(
            encode_utf8("memory:entity-observations:"@),
            seq![decimal_text(entity_id as int)],
        ),
{
    let id = decimal(entity_id);
    let fields: Vec<&str> = vec![id.as_str()];
    assert(str_texts(fields@) =~= seq![decimal_text(entity_id as int)]);
    memory_advisory_lock_key("memory:entity-observations:".as_bytes(), fields.as_slice())
}

/// The key that serialises writers of one relation identity.
pub fn memory_relation_identity_lock_key(from: &str, to: &str, relation_type: &str) -> (r: (
    i32,
    i32,
))
    ensures
        r == lock_key(encode_utf8("memory:relation:"@), seq![from@, to@, relation_type@]),
{
    let fields: Vec<&str> = vec![from, to, relation_type];
    assert(str_texts(fields@) =~= seq![from@, to@, relation_type@]);
    memory_advisory_lock_key("memory:relation:".as_bytes(), fields.as_slice())
}

/// Taking the advisory lock with a given key until the transaction ends.
pub open spec fn takes_lock(key: (i32, i32)) -> StatementView {
    executes(ADVISORY_LOCK_SQL@, seq![BindView::Int(key.0), BindView::Int(key.1)])
}

/// Takes the advisory lock with a given key until the transaction ends.
pub fn take_lock(key: (i32, i32)) -> (st: Statement)
    ensures
        st@ == takes_lock(key),
        opens(st@.sql, "SELECT"@),
        takes(st@, "pg_advisory_xact_lock("@, BindView::Int(key.0)),
        takes(st@, "SELECT pg_advisory_xact_lock($1, "@, BindView::Int(key.1)),
{
    proof {
        law_takes_lock_stands_for_its_values(key);
    }
    Statement::execute(ADVISORY_LOCK_SQL).int4(key.0).int4(key.1)
}

/// Locks an entity identity.
pub fn lock_memory_entity_identity(name: &str, entity_type: &str) -> (st: Statement)
    ensures
        st@ == takes_lock(lock_key(encode_utf8("memory:entity:"@), seq![name@, entity_type@])),
        opens(st@.sql, "SELECT"@),
        takes(
            st@,
            "pg_advisory_xact_lock("@,
            BindView::Int(lock_key(encode_utf8("memory:entity:"@), seq![name@, entity_type@]).0),
        ),
        takes(
            st@,
            "SELECT pg_advisory_xact_lock($1, "@,
            BindView::Int(lock_key(encode_utf8("memory:entity:"@), seq![name@, entity_type@]).1),
        ),
{
    proof {
        law_takes_lock_stands_for_its_values(
            lock_key(encode_utf8("memory:entity:"@), seq![name@, entity_type@]),
        );
    }
    take_lock(memory_entity_identity_lock_key(name, entity_type))
}

/// Locks the observations of an entity.
pub fn lock_memory_entity_observations(entity_id: i64) -> (st: Statement)
    ensures
        st@ == takes_lock(
            lock_key(
                encode_utf8("memory:entity-observations:"@),
                seq![decimal_text(entity_id as int)],
            ),
        ),
        opens(st@.sql, "SELECT"@),
        takes(
            st@,
            "pg_advisory_xact_lock("@,
            BindView::Int(lock_key(encode_utf8("memory:entity-observations:"@), seq![decimal_text(entity_id as int)]).0),
        ),
        takes(
            st@,
            "SELECT pg_advisory_xact_lock($1, "@,
            BindView::Int(lock_key(encode_utf8("memory:entity-observations:"@), seq![decimal_text(entity_id as int)]).1),
        ),
{
    proof {
        law_takes_lock_stands_for_its_values(
            lock_key( encode_utf8("memory:entity-observations:"@), seq![decimal_text(entity_id as int)], ),
        );
    }
    take_lock(memory_entity_observation_lock_key(entity_id))
}

/// Locks a relation identity.
pub fn lock_memory_relation_identity(from: &str, to: &str, relation_type: &str) -> (st: Statement)
    ensures
        st@ == takes_lock(
            lock_key(encode_utf8("memory:relation:"@), seq![from@, to@, relation_type@]),
        ),
        opens(st@.sql, "SELECT"@),
        takes(
            st@,
            "pg_advisory_xact_lock("@,
            BindView::Int(lock_key(encode_utf8("memory:relation:"@), seq![from@, to@, relation_type@]).0),
        ),
        takes(
            st@,
            "SELECT pg_advisory_xact_lock($1, "@,
            BindView::Int(lock_key(encode_utf8("memory:relation:"@), seq![from@, to@, relation_type@]).1),
        ),
{
    proof {
        law_takes_lock_stands_for_its_values(
            lock_key(encode_utf8("memory:relation:"@), seq![from@, to@, relation_type@]),
        );
    }
    take_lock(memory_relation_identity_lock_key(from, to, relation_type))
}

proof fn lemma_fnv_concat(seed: u32, a: Seq<u8>, b: Seq<u8>)
    ensures
        fnv1a(seed, a + b) == fnv1a(fnv1a(seed, a), b),
    decreases b.len(),
{
    if b.len() == 0 {
        assert(a + b =~= a);
    } else {
        lemma_fnv_concat(seed, a, b.drop_last());
        assert((a + b).drop_last() =~= a + b.drop_last());
    }
}

/// The bytes that a lock key is the hash of: each field and a zero byte.
pub open spec fn separated(fields: Seq<Seq<char>>) -> Seq<u8>
    decreases fields.len(),
{
    if fields.len() == 0 {
        seq![]
    } else {
        separated(fields.drop_last()) + encode_utf8(fields.last()) + seq![0u8]
    }
}

proof fn lemma_absorb_is_hash(seed: u32, fields: Seq<Seq<char>>)
    ensures
        absorb_fields(seed, fields) == fnv1a(seed, separated(fields)),
    decreases fields.len(),
{
    if fields.len() > 0 {
        let f = encode_utf8(fields.last());
        let s = separated(fields.drop_last());
        lemma_absorb_is_hash(seed, fields.drop_last());
        lemma_fnv_concat(seed, s, f);
        assert((s + f + seq![0u8]).drop_last() =~= s + f);
    }
}

/// A lock key is a pair of FNV-1a hashes of one byte string: the prefix,
/// then each field followed by a zero byte.
pub proof fn law_lock_key_hashes_separated_fields(prefix: Seq<u8>, fields: Seq<Seq<char>>)
    ensures
        lock_key(prefix, fields) == (
            fnv1a(HIGH_BASIS, prefix + separated(fields)) as i32,
            fnv1a(HIGH_BASIS ^ LOW_MIX, prefix + separated(fields)) as i32,
        ),
{
    lemma_absorb_is_hash(fnv1a(HIGH_BASIS, prefix), fields);
    lemma_absorb_is_hash(fnv1a(HIGH_BASIS ^ LOW_MIX, prefix), fields);
    lemma_fnv_concat(HIGH_BASIS, prefix, separated(fields));
    lemma_fnv_concat(HIGH_BASIS ^ LOW_MIX, prefix, separated(fields));
}

} // verus!
