use vstd::prelude::*;

verus! {

/// Name reported for the application and window while no window
/// introspection is available.
pub const UNKNOWN: &'static str = "unknown";

/// Coarse semantic tags derived for one context update.
pub struct ContextMetadata {
    pub active_app: String,
    pub active_window_title: String,
    pub word_count: u32,
    pub is_communication: bool,
    pub is_code: bool,
    pub is_document: bool,
}

/// Mathematical model of `ContextMetadata`.
pub struct ContextMetadataView {
    pub active_app: Seq<char>,
    pub active_window_title: Seq<char>,
    pub word_count: nat,
    pub is_communication: bool,
    pub is_code: bool,
    pub is_document: bool,
}

impl View for ContextMetadata {
    type V = ContextMetadataView;

    open spec fn view(&self) -> ContextMetadataView {
        ContextMetadataView {
            active_app: self.active_app@,
            active_window_title: self.active_window_title@,
            word_count: self.word_count as nat,
            is_communication: self.is_communication,
            is_code: self.is_code,
            is_document: self.is_document,
        }
    }
}

/// The metadata derived from a recognized text. Without window
/// introspection every text maps to the same placeholder: unknown
/// application and window, no words counted, no tag set.
pub open spec fn metadata_of(text: Seq<char>) -> ContextMetadataView {
    ContextMetadataView {
        active_app: UNKNOWN@,
        active_window_title: UNKNOWN@,
        word_count: 0,
        is_communication: false,
        is_code: false,
        is_document: false,
    }
}

/// Derives the context metadata of a recognized text. Total: defined for
/// every text, the empty one included.
pub fn extract_metadata(text: &str) -> (r: ContextMetadata)
    ensures
        r@ == metadata_of(text@),
{
    ContextMetadata {
        active_app: UNKNOWN.to_string(),
        active_window_title: UNKNOWN.to_string(),
        word_count: 0,
        is_communication: false,
        is_code: false,
        is_document: false,
    }
}

/// Metadata extraction is a function of the text alone: two extractions
/// from equal texts give equal metadata.
pub proof fn lemma_metadata_deterministic(a: Seq<char>, b: Seq<char>)
    requires
        a == b,
    ensures
        metadata_of(a) == metadata_of(b),
{
}

} // verus!
