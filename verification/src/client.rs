//! The one decision the client makes per run: given the response status and
//! body, either the full rendered text or the failure to report.

use vstd::prelude::*;

use crate::json::json_doc_of;
use crate::json::JsonValue;
use crate::model::{parse, spec_response, APIResponseV};
use crate::render::{
    lemma_render_is_block_concat, render_tracks, spec_block, spec_blocks, spec_render, track_views,
};
use crate::status::{classify_status, spec_classify, FailureKind, StatusDecision};

verus! {

/// Handle one HTTP response: parse and render the body only when the
/// status allows it. A 401 maps to [`FailureKind::Unauthorized`] and any
/// other non-200 status to [`FailureKind::RequestFailed`], in both cases
/// without the result depending on the body in any way; a 200 body is
/// parsed all-or-nothing and, on success, rendered in full.
pub fn run_response(status: u16, body: &[u8]) -> (r: Result<String, FailureKind>)
    ensures
        spec_classify(status) matches StatusDecision::Reject(k) ==> r matches Err(e) && e == k,
        spec_classify(status) is ParseBody ==> match json_doc_of(body@) {
            Some(doc) => match spec_response(doc) {
                Some(rv) => r matches Ok(s) && s@ == spec_render(rv.tracks.items),
                None => r matches Err(e) && e == FailureKind::MalformedResponse,
            },
            None => r matches Err(e) && e == FailureKind::MalformedResponse,
        },
{
    match classify_status(status) {
        StatusDecision::ParseBody => match parse(body) {
            Ok(resp) => {
                let text = render_tracks(&resp.tracks.items);
                proof {
                    assert(resp@.tracks.items =~= track_views(resp.tracks.items@));
                }
                Ok(text)
            },
            Err(_) => Err(FailureKind::MalformedResponse),
        },
        StatusDecision::Reject(k) => Err(k),
    }
}

/// Law: for any JSON document that satisfies the response shape, parsing
/// followed by rendering yields exactly one formatted block per track of
/// the document, in document order, each block built verbatim from that
/// track's fields.
pub proof fn lemma_parse_then_render(doc: JsonValue, rv: APIResponseV)
    requires
        spec_response(doc) == Some(rv),
    ensures
        spec_blocks(rv.tracks.items).len() == rv.tracks.items.len(),
        forall|i: int|
            0 <= i < rv.tracks.items.len() ==> spec_blocks(rv.tracks.items)[i] == spec_block(
                rv.tracks.items[i],
            ),
        spec_render(rv.tracks.items) == spec_blocks(rv.tracks.items).flatten(),
{
    lemma_render_is_block_concat(rv.tracks.items);
}

} // verus!
