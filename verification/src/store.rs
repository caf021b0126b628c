//! The artifact store: a persistent key-value mapping from function
//! identifier to artifact record.
//!
//! Entries are append/overwrite-only: a new compute pass overwrites a
//! record wholesale, and a record never goes away by itself — staleness
//! is signaled by fingerprint mismatch, not by removal. The store's
//! abstract value is the map from identifier to the most recently
//! written record.

use vstd::prelude::*;

use crate::text::str_eq;
use crate::FormatTag;

verus! {

/// One persisted unit: the format tag of the payload, the fingerprint
/// of the source that produced it, and the encoded payload itself.
#[derive(Debug, PartialEq, Eq)]
pub struct StoredArtifact {
    /// Which encoding strategy produced the payload.
    pub tag: FormatTag,
    /// The fingerprint (canonical source text) of the decorated
    /// function at the time the record was written.
    pub identity: String,
    /// The encoded result of running the decorated function.
    pub payload: String,
}

/// Ghost mirror of [`StoredArtifact`].
pub struct ArtifactView {
    pub tag: FormatTag,
    pub identity: Seq<char>,
    pub payload: Seq<char>,
}

impl View for StoredArtifact {
    type V = ArtifactView;

    open spec fn view(&self) -> ArtifactView {
        ArtifactView { tag: self.tag, identity: self.identity@, payload: self.payload@ }
    }
}

/// One keyed entry of the store.
#[derive(Debug, PartialEq, Eq)]
pub struct StoreEntry {
    /// The decorated function's identifier.
    pub key: String,
    /// The record written under that identifier.
    pub record: StoredArtifact,
}

/// The map a sequence of writes denotes: later writes to the same
/// identifier shadow earlier ones.
pub open spec fn entries_map(s: Seq<StoreEntry>) -> Map<Seq<char>, ArtifactView>
    decreases s.len(),
{
    if s.len() == 0 {
        Map::<Seq<char>, ArtifactView>::empty()
    } else {
        entries_map(s.drop_last()).insert(s.last().key@, s.last().record@)
    }
}

/// The artifact store itself, backed by the journal of its writes.
pub struct ArtifactStore {
    entries: Vec<StoreEntry>,
}

impl View for ArtifactStore {
    type V = Map<Seq<char>, ArtifactView>;

    closed spec fn view(&self) -> Map<Seq<char>, ArtifactView> {
        entries_map(self.entries@)
    }
}

proof fn lemma_entries_map_high(s: Seq<StoreEntry>, i: int, k: Seq<char>)
    requires
        0 <= i <= s.len(),
        forall|j: int| i <= j < s.len() ==> (#[trigger] s[j]).key@ != k,
    ensures
        entries_map(s).contains_key(k) == entries_map(s.take(i)).contains_key(k),
        entries_map(s).contains_key(k) ==> entries_map(s)[k] == entries_map(s.take(i))[k],
    decreases s.len() - i,
{
    if i == s.len() {
        assert(s.take(i) =~= s);
    } else {
        lemma_entries_map_high(s, i + 1, k);
        assert(s.take(i + 1).drop_last() =~= s.take(i));
        assert(s.take(i + 1).last() == s[i]);
    }
}

impl ArtifactStore {
    /// An empty store: no function has been computed yet.
    pub fn new() -> (r: ArtifactStore)
        ensures
            r@ == Map::<Seq<char>, ArtifactView>::empty(),
    {
        ArtifactStore { entries: Vec::new() }
    }

    /// Writes a record under an identifier, overwriting any record
    /// previously stored under it.
    pub fn write(&mut self, key: String, record: StoredArtifact)
        ensures
            final (self)@ == old(self)@.insert(key@, record@),
    {
        let ghost k = key@;
        let ghost rv = record@;
        self.entries.push(StoreEntry { key, record });
        proof {
            assert(self.entries@.drop_last() =~= old(self).entries@);
            assert(self.entries@.last().key@ == k);
            assert(self.entries@.last().record@ == rv);
        }
    }

    /// Deletes whatever is stored under an identifier. The pipeline
    /// itself never deletes — staleness is signaled by fingerprint
    /// mismatch — so this models an external act on the store.
    #[verifier::loop_isolation(false)]
    pub fn remove(&mut self, key: &String)
        ensures
            final (self)@ == old(self)@.remove(key@),
    {
        let mut kept: Vec<StoreEntry> = Vec::new();
        let mut i: usize = 0;
        while i < self.entries.len()
            invariant
                i <= self.entries@.len(),
                self.entries@ == old(self).entries@,
                entries_map(kept@) == entries_map(self.entries@.take(i as int)).remove(key@),
            decreases self.entries@.len() - i,
        {
            proof {
                let ii = i as int;
                assert(self.entries@.take(ii + 1).drop_last() =~= self.entries@.take(ii));
                assert(self.entries@.take(ii + 1).last() == self.entries@[ii]);
            }
            let e = &self.entries[i];
            if !str_eq(e.key.as_str(), key.as_str()) {
                let copy = StoreEntry {
                    key: e.key.clone(),
                    record: StoredArtifact {
                        tag: e.record.tag,
                        identity: e.record.identity.clone(),
                        payload: e.record.payload.clone(),
                    },
                };
                let ghost kept_before = kept@;
                kept.push(copy);
                proof {
                    let ii = i as int;
                    assert(kept@.drop_last() =~= kept_before);
                    assert(entries_map(kept@) == entries_map(kept_before).insert(
                        self.entries@[ii].key@,
                        self.entries@[ii].record@,
                    ));
                    assert(entries_map(self.entries@.take(ii + 1)).remove(key@) =~= entries_map(
                        self.entries@.take(ii),
                    ).remove(key@).insert(self.entries@[ii].key@, self.entries@[ii].record@));
                }
            } else {
                proof {
                    let ii = i as int;
                    assert(entries_map(self.entries@.take(ii + 1)).remove(key@) =~= entries_map(
                        self.entries@.take(ii),
                    ).remove(key@));
                }
            }
            i += 1;
        }
        proof {
            assert(self.entries@.take(self.entries@.len() as int) =~= self.entries@);
        }
        self.entries = kept;
    }

    /// Looks up the record most recently written under an identifier.
    #[verifier::loop_isolation(false)]
    pub fn lookup(&self, key: &String) -> (r: Option<&StoredArtifact>)
        ensures
            match r {
                Some(rec) => self@.contains_key(key@) && self@[key@] == rec@,
                None => !self@.contains_key(key@),
            },
    {
        let mut i: usize = self.entries.len();
        while i > 0
            invariant
                i <= self.entries.len(),
                forall|j: int|
                    i <= j < self.entries@.len() ==> (#[trigger] self.entries@[j]).key@ != key@,
            decreases i,
    {
            i = i - 1;
            if str_eq(self.entries[i].key.as_str(), key.as_str()) {
                proof {
                    lemma_entries_map_high(self.entries@, i + 1, key@);
                    assert(self.entries@.take(i + 1).drop_last() =~= self.entries@.take(i as int));
                    assert(self.entries@.take(i + 1).last() == self.entries@[i as int]);
                }
                return Some(&self.entries[i].record);
            }
        }
        proof {
            lemma_entries_map_high(self.entries@, 0, key@);
            assert(self.entries@.take(0) =~= Seq::<StoreEntry>::empty());
        }
        None
    }
}

/// The byte layout of a record's result slot: the format tag byte in
/// front of the payload's UTF-8 bytes.
pub open spec fn spec_frame(tag: FormatTag, payload: Seq<char>) -> Seq<u8> {
    seq![tag.spec_byte()] + vstd::utf8::encode_utf8(payload)
}

/// Builds the combined result buffer for one record: the tag byte is
/// put in front of the payload bytes.
pub fn frame_payload(tag: FormatTag, payload: &str) -> (r: Vec<u8>)
    ensures
        r@ == spec_frame(tag, payload@),
{
    let mut buf: Vec<u8> = Vec::new();
    buf.push(tag.byte());
    let mut bytes = payload.as_bytes_vec();
    buf.append(&mut bytes);
    proof {
        assert(buf@ =~= spec_frame(tag, payload@));
    }
    buf
}

/// Splits a combined result buffer back into the tag byte and the
/// payload bytes; a buffer too short to hold a tag yields nothing.
pub fn unframe(data: &Vec<u8>) -> (r: Option<(u8, Vec<u8>)>)
    ensures
        match r {
            Some(p) => data@.len() >= 1 && p.0 == data@[0] && p.1@ == data@.skip(1),
            None => data@.len() == 0,
        },
{
    if data.len() == 0 {
        None
    } else {
        let tag = data[0];
        let mut rest: Vec<u8> = Vec::new();
        let mut i: usize = 1;
        while i < data.len()
            invariant
                1 <= i <= data@.len(),
                rest@ == data@.subrange(1, i as int),
            decreases data@.len() - i,
        {
            rest.push(data[i]);
            proof {
                assert(data@.subrange(1, i + 1) =~= data@.subrange(1, i as int).push(
                    data@[i as int],
                ));
            }
            i += 1;
        }
        proof {
            assert(data@.subrange(1, data@.len() as int) =~= data@.skip(1));
        }
        Some((tag, rest))
    }
}

/// Framing loses nothing: the tag byte and the payload come back from
/// the combined buffer exactly.
pub proof fn lemma_frame_round_trip(tag: FormatTag, payload: Seq<char>)
    ensures
        spec_frame(tag, payload).len() >= 1,
        spec_frame(tag, payload)[0] == tag.spec_byte(),
        vstd::utf8::decode_utf8(spec_frame(tag, payload).skip(1)) == payload,
{
    assert(spec_frame(tag, payload).skip(1) =~= vstd::utf8::encode_utf8(payload));
    vstd::utf8::encode_utf8_decode_utf8(payload);
}

} // verus!
