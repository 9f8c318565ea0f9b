//! The stored form in which a cache keeps one document.
use vstd::prelude::*;
use crate::text::{copy_bytes, copy_optional_text, opt, same_bytes, same_optional_text, same_text};

verus! {

/// One stored document: its key, its type, its payload, and when it was stored.
#[derive(Clone, Debug, PartialEq, Eq)]
pub struct CultCacheEnvelope {
    pub key: String,
    pub entry_type: String,
    pub payload: Vec<u8>,
    pub stored_at: String,
    pub schema_id: Option<String>,
}

/// What an envelope holds.
#[verifier::ext_equal]
pub struct Envelope {
    pub key: Seq<char>,
    pub entry_type: Seq<char>,
    pub payload: Seq<u8>,
    pub stored_at: Seq<char>,
    pub schema_id: Option<Seq<char>>,
}

impl View for CultCacheEnvelope {
    type V = Envelope;

    open spec fn view(&self) -> Envelope {
        Envelope {
            key: self.key@,
            entry_type: self.entry_type@,
            payload: self.payload@,
            stored_at: self.stored_at@,
            schema_id: opt(self.schema_id),
        }
    }
}

/// The contents of a sequence of envelopes.
pub open spec fn envelopes(stored: Seq<CultCacheEnvelope>) -> Seq<Envelope> {
    stored.map_values(|envelope: CultCacheEnvelope| envelope@)
}

impl CultCacheEnvelope {
    pub fn copy(&self) -> (copy: CultCacheEnvelope)
        ensures
            copy@ == self@,
    {
        CultCacheEnvelope {
            key: self.key.clone(),
            entry_type: self.entry_type.clone(),
            payload: copy_bytes(&self.payload),
            stored_at: self.stored_at.clone(),
            schema_id: copy_optional_text(&self.schema_id),
        }
    }

    pub fn same(&self, other: &CultCacheEnvelope) -> (same: bool)
        ensures
            same == (self@ == other@),
    {
        same_text(&self.key, &other.key) && same_text(&self.entry_type, &other.entry_type) && same_bytes(
            &self.payload,
            &other.payload,
        ) && same_text(&self.stored_at, &other.stored_at) && same_optional_text(
            &self.schema_id,
            &other.schema_id,
        )
    }
}

}
