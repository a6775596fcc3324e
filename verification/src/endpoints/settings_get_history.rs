use vstd::prelude::*;

use crate::history::{
    cleanup_invalid_entries, list_page, spec_cleaned, spec_cleaned_audio, spec_page_items,
    spec_item_count, spec_page_number, spec_page_size, spec_page_start, spec_total_pages, HistoryPage, HistoryStore,
};

verus! {

/// A request for one page of the history.
#[derive(Debug, Clone, Copy, PartialEq, Eq, Structural)]
pub struct SettingsGetHistoryRequest {
    pub page: u32,
    pub page_size: u32,
}

impl Default for SettingsGetHistoryRequest {
    fn default() -> (r: Self)
        ensures
            r == (SettingsGetHistoryRequest { page: 1, page_size: 20 }),
    {
        SettingsGetHistoryRequest { page: 1, page_size: 20 }
    }
}

/// The page request to serve: the decoded one, or the first page of 20
/// sessions when the payload did not decode.
pub fn history_request_or_default(decoded: Option<SettingsGetHistoryRequest>) -> (r: SettingsGetHistoryRequest)
    ensures
        decoded matches Some(d) ==> r == d,
        decoded is None ==> r == (SettingsGetHistoryRequest { page: 1, page_size: 20 }),
{
    match decoded {
        Some(d) => d,
        None => SettingsGetHistoryRequest::default(),
    }
}

/// Serves a history request: drops sessions whose transcript is not valid or
/// whose audio is missing (`audio_present[i]` tells whether the audio of the
/// `i`-th session is on disk), then returns the requested page (the first
/// page of 20 when the request did not decode) and the audio file names of
/// the dropped sessions.
pub fn handle(
    store: &mut HistoryStore,
    audio_present: &Vec<bool>,
    decoded: Option<SettingsGetHistoryRequest>,
) -> (r: (HistoryPage, Vec<String>))
    requires
        audio_present.len() == old(store).entries.len(),
        ({
            let req = match decoded {
                Some(d) => d,
                None => SettingsGetHistoryRequest { page: 1, page_size: 20 },
            };
            spec_page_start(spec_page_number(req.page), spec_page_size(req.page_size)) <= u32::MAX
        }),
    ensures
        final(store)@ == spec_cleaned(old(store)@, audio_present@),
        r.1.deep_view() == spec_cleaned_audio(old(store)@, audio_present@),
        ({
            let req = match decoded {
                Some(d) => d,
                None => SettingsGetHistoryRequest { page: 1, page_size: 20 },
            };
            &&& r.0@.page == spec_page_number(req.page)
            &&& r.0@.page_size == spec_page_size(req.page_size)
            &&& r.0@.total_items == spec_item_count(final(store)@.len())
            &&& r.0@.total_pages == spec_total_pages(r.0@.total_items as nat, spec_page_size(req.page_size) as nat)
            &&& r.0@.items == spec_page_items(final(store)@, r.0@.page, r.0@.page_size)
        }),
{
    let req = history_request_or_default(decoded);
    let removed = cleanup_invalid_entries(store, audio_present);
    let page = list_page(store, req.page, req.page_size);
    (page, removed)
}

} // verus!
