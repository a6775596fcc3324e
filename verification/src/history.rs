use vstd::prelude::*;
use vstd::string::*;

use crate::settings::{copy_optional_string, AppSettings};
use crate::text::{append_decimal, is_valid_transcript, spec_decimal, spec_is_valid_transcript, spec_starts_with};

verus! {

/// One saved dictation session.
#[derive(Debug, Clone)]
pub struct HistoryEntry {
    pub id: String,
    pub created_at_unix_ms: u128,
    pub audio_file_name: String,
    pub raw_transcript: String,
    pub processed_transcript: Option<String>,
}

pub struct HistoryEntryView {
    pub id: Seq<char>,
    pub created_at_unix_ms: u128,
    pub audio_file_name: Seq<char>,
    pub raw_transcript: Seq<char>,
    pub processed_transcript: Option<Seq<char>>,
}

impl View for HistoryEntry {
    type V = HistoryEntryView;

    open spec fn view(&self) -> HistoryEntryView {
        HistoryEntryView {
            id: self.id@,
            created_at_unix_ms: self.created_at_unix_ms,
            audio_file_name: self.audio_file_name@,
            raw_transcript: self.raw_transcript@,
            processed_transcript: self.processed_transcript.deep_view(),
        }
    }
}

impl HistoryEntry {
    /// A copy with the same view.
    pub fn duplicate(&self) -> (r: Self)
        ensures
            r@ == self@,
    {
        HistoryEntry {
            id: self.id.clone(),
            created_at_unix_ms: self.created_at_unix_ms,
            audio_file_name: self.audio_file_name.clone(),
            raw_transcript: self.raw_transcript.clone(),
            processed_transcript: copy_optional_string(&self.processed_transcript),
        }
    }
}

/// The saved sessions, newest first.
#[derive(Debug, Clone)]
pub struct HistoryStore {
    pub entries: Vec<HistoryEntry>,
}

impl View for HistoryStore {
    type V = Seq<HistoryEntryView>;

    open spec fn view(&self) -> Seq<HistoryEntryView> {
        self.entries@.map_values(|e: HistoryEntry| e@)
    }
}

impl HistoryStore {
    /// A store without sessions.
    pub fn new() -> (r: Self)
        ensures
            r@ == Seq::<HistoryEntryView>::empty(),
    {
        let r = HistoryStore { entries: Vec::new() };
        assert(r@ =~= Seq::<HistoryEntryView>::empty());
        r
    }
}

/// The id of a session recorded `nanos` nanoseconds after the Unix epoch:
/// `h_` followed by that number in decimal.
pub open spec fn spec_history_id(nanos: u128) -> Seq<char> {
    "h_"@ + spec_decimal(nanos as nat)
}

/// The id of a session recorded `nanos` nanoseconds after the Unix epoch.
pub fn history_id(nanos: u128) -> (r: String)
    ensures
        r@ == spec_history_id(nanos),
{
    let mut id = "h_".to_owned();
    append_decimal(&mut id, nanos);
    id
}

/// The name of the audio file saved for the session with id `id`.
pub open spec fn spec_audio_file_name_for(id: Seq<char>) -> Seq<char> {
    id + ".wav"@
}

/// The name of the audio file saved for the session with id `id`.
pub fn audio_file_name_for(id: &str) -> (r: String)
    ensures
        r@ == spec_audio_file_name_for(id@),
{
    let mut name = id.to_owned();
    name.append(".wav");
    name
}

/// The session recorded `nanos` nanoseconds after the Unix epoch, saved at
/// `created_at_unix_ms`: its id is `h_` and that number, its audio file is
/// named after the id, and it keeps both transcripts.
pub open spec fn spec_new_entry(
    nanos: u128,
    created_at_unix_ms: u128,
    raw_transcript: Seq<char>,
    processed_transcript: Option<Seq<char>>,
) -> HistoryEntryView {
    HistoryEntryView {
        id: spec_history_id(nanos),
        created_at_unix_ms,
        audio_file_name: spec_audio_file_name_for(spec_history_id(nanos)),
        raw_transcript,
        processed_transcript,
    }
}

/// The entry for a session recorded `nanos` nanoseconds after the Unix epoch
/// and saved at `created_at_unix_ms` (see `spec_new_entry`).
pub fn new_history_entry(
    nanos: u128,
    created_at_unix_ms: u128,
    raw_transcript: &str,
    processed_transcript: Option<String>,
) -> (r: HistoryEntry)
    ensures
        r@ == spec_new_entry(nanos, created_at_unix_ms, raw_transcript@, processed_transcript.deep_view()),
{
    let id = history_id(nanos);
    let audio_file_name = audio_file_name_for(id.as_str());
    HistoryEntry {
        id,
        created_at_unix_ms,
        audio_file_name,
        raw_transcript: raw_transcript.to_owned(),
        processed_transcript,
    }
}

/// Every session id starts with `h_`, and its audio file name is the id
/// followed by `.wav`.
pub proof fn law_history_id_shape(nanos: u128)
    ensures
        spec_starts_with(spec_history_id(nanos), "h_"@),
        spec_audio_file_name_for(spec_history_id(nanos)) == spec_history_id(nanos) + ".wav"@,
{
    let id = spec_history_id(nanos);
    assert(id.subrange(0, "h_"@.len() as int) =~= "h_"@);
}

/// The audio file names of `entries`, in order.
pub open spec fn spec_audio_names(entries: Seq<HistoryEntryView>) -> Seq<Seq<char>> {
    entries.map_values(|e: HistoryEntryView| e.audio_file_name)
}

/// How many sessions survive a retention limit of `max`.
pub open spec fn spec_retained_count(len: nat, max: u32) -> nat {
    if len <= max as nat {
        len
    } else {
        max as nat
    }
}

/// Collects the audio file names of `entries[from..]`.
fn audio_names_from(entries: &Vec<HistoryEntry>, from: usize) -> (r: Vec<String>)
    requires
        from <= entries.len(),
    ensures
        r.deep_view() == spec_audio_names(entries@.map_values(|e: HistoryEntry| e@).skip(from as int)),
{
    let ghost all = entries@.map_values(|e: HistoryEntry| e@);
    let mut r: Vec<String> = Vec::new();
    let mut k = from;
    while k < entries.len()
        invariant
            from <= k <= entries.len(),
            all == entries@.map_values(|e: HistoryEntry| e@),
            r.deep_view() =~= spec_audio_names(all.subrange(from as int, k as int)),
        decreases entries.len() - k,
    {
        r.push(entries[k].audio_file_name.clone());
        proof {
            assert(spec_audio_names(all.subrange(from as int, k + 1)) =~= spec_audio_names(
                all.subrange(from as int, k as int),
            ).push(all[k as int].audio_file_name));
        }
        k = k + 1;
    }
    proof {
        assert(all.subrange(from as int, entries.len() as int) =~= all.skip(from as int));
    }
    r
}

/// Keeps only the `max` newest sessions (none when `max` is 0) and returns the
/// audio file names of the sessions it dropped, oldest last.
pub fn enforce_retention(store: &mut HistoryStore, max: u32) -> (removed: Vec<String>)
    ensures
        final(store)@ == old(store)@.take(spec_retained_count(old(store)@.len(), max) as int),
        removed.deep_view() == spec_audio_names(
            old(store)@.skip(spec_retained_count(old(store)@.len(), max) as int),
        ),
{
    let ghost before = store@;
    let len = store.entries.len();
    let keep: usize = if (max as u64) < (len as u64) {
        max as usize
    } else {
        len
    };
    let removed = audio_names_from(&store.entries, keep);
    store.entries.truncate(keep);
    proof {
        assert(store@ =~= before.take(keep as int));
    }
    removed
}

/// Applies the retention limit of `settings` to the history.
pub fn enforce_retention_from_settings(store: &mut HistoryStore, settings: &AppSettings) -> (removed: Vec<String>)
    ensures
        final(store)@ == old(store)@.take(
            spec_retained_count(old(store)@.len(), settings.history.retention_max_sessions) as int,
        ),
        removed.deep_view() == spec_audio_names(
            old(store)@.skip(
                spec_retained_count(old(store)@.len(), settings.history.retention_max_sessions) as int,
            ),
        ),
{
    enforce_retention(store, settings.history.retention_max_sessions)
}

/// Whether a session survives a cleanup: its transcript is valid and its
/// audio file is on disk.
pub open spec fn spec_entry_kept(e: HistoryEntryView, audio_present: bool) -> bool {
    spec_is_valid_transcript(e.raw_transcript) && audio_present
}

/// The sessions that survive a cleanup, in their stored order.
pub open spec fn spec_cleaned(entries: Seq<HistoryEntryView>, present: Seq<bool>) -> Seq<HistoryEntryView>
    decreases entries.len(),
{
    if entries.len() == 0 {
        Seq::empty()
    } else {
        let n = entries.len() - 1;
        let rest = spec_cleaned(entries.take(n), present.take(n));
        if spec_entry_kept(entries[n], present[n]) {
            rest.push(entries[n])
        } else {
            rest
        }
    }
}

/// The audio file names of the sessions that a cleanup drops, in order.
pub open spec fn spec_cleaned_audio(entries: Seq<HistoryEntryView>, present: Seq<bool>) -> Seq<Seq<char>>
    decreases entries.len(),
{
    if entries.len() == 0 {
        Seq::empty()
    } else {
        let n = entries.len() - 1;
        let rest = spec_cleaned_audio(entries.take(n), present.take(n));
        if spec_entry_kept(entries[n], present[n]) {
            rest
        } else {
            rest.push(entries[n].audio_file_name)
        }
    }
}

/// Drops every session whose transcript is not valid or whose audio file is
/// missing (`audio_present[i]` tells whether the audio of the `i`-th session
/// is on disk), and returns the audio file names of the dropped sessions.
pub fn cleanup_invalid_entries(store: &mut HistoryStore, audio_present: &Vec<bool>) -> (removed: Vec<String>)
    requires
        audio_present.len() == old(store).entries.len(),
    ensures
        final(store)@ == spec_cleaned(old(store)@, audio_present@),
        removed.deep_view() == spec_cleaned_audio(old(store)@, audio_present@),
{
    let ghost all = store@;
    let n = store.entries.len();
    let mut kept: Vec<HistoryEntry> = Vec::new();
    let mut removed: Vec<String> = Vec::new();
    for i in 0..n
        invariant
            n == store.entries.len(),
            n == audio_present.len(),
            all == store@,
            kept@.map_values(|e: HistoryEntry| e@) =~= spec_cleaned(all.take(i as int), audio_present@.take(i as int)),
            removed.deep_view() =~= spec_cleaned_audio(all.take(i as int), audio_present@.take(i as int)),
    {
        proof {
            assert(all.take(i + 1).take(i as int) =~= all.take(i as int));
            assert(audio_present@.take(i + 1).take(i as int) =~= audio_present@.take(i as int));
            assert(all.take(i + 1)[i as int] == all[i as int]);
        }
        let entry = &store.entries[i];
        if is_valid_transcript(entry.raw_transcript.as_str()) && audio_present[i] {
            kept.push(entry.duplicate());
        } else {
            removed.push(entry.audio_file_name.clone());
        }
    }
    proof {
        assert(all.take(n as int) =~= all);
        assert(audio_present@.take(n as int) =~= audio_present@);
    }
    store.entries = kept;
    removed
}

/// The sessions whose id is not `id`, in their stored order.
pub open spec fn spec_without_id(entries: Seq<HistoryEntryView>, id: Seq<char>) -> Seq<HistoryEntryView>
    decreases entries.len(),
{
    if entries.len() == 0 {
        Seq::empty()
    } else {
        let n = entries.len() - 1;
        let rest = spec_without_id(entries.take(n), id);
        if entries[n].id != id {
            rest.push(entries[n])
        } else {
            rest
        }
    }
}

/// The audio file names of the sessions whose id is `id`, in order.
pub open spec fn spec_audio_with_id(entries: Seq<HistoryEntryView>, id: Seq<char>) -> Seq<Seq<char>>
    decreases entries.len(),
{
    if entries.len() == 0 {
        Seq::empty()
    } else {
        let n = entries.len() - 1;
        let rest = spec_audio_with_id(entries.take(n), id);
        if entries[n].id != id {
            rest
        } else {
            rest.push(entries[n].audio_file_name)
        }
    }
}

/// Whether some session has id `id`.
pub open spec fn spec_has_id(entries: Seq<HistoryEntryView>, id: Seq<char>) -> bool {
    exists|i: int| 0 <= i < entries.len() && #[trigger] entries[i].id == id
}

/// Removes every session with id `id`. The result says whether any was
/// removed, and lists the audio file names of the removed sessions.
pub fn delete_entry(store: &mut HistoryStore, id: &str) -> (r: (bool, Vec<String>))
    ensures
        final(store)@ == spec_without_id(old(store)@, id@),
        r.1.deep_view() == spec_audio_with_id(old(store)@, id@),
        r.0 == spec_has_id(old(store)@, id@),
{
    let target = id.to_owned();
    let ghost all = store@;
    let n = store.entries.len();
    let mut kept: Vec<HistoryEntry> = Vec::new();
    let mut removed: Vec<String> = Vec::new();
    let mut found = false;
    for i in 0..n
        invariant
            n == store.entries.len(),
            all == store@,
            target@ == id@,
            kept@.map_values(|e: HistoryEntry| e@) =~= spec_without_id(all.take(i as int), id@),
            removed.deep_view() =~= spec_audio_with_id(all.take(i as int), id@),
            found == spec_has_id(all.take(i as int), id@),
    {
        proof {
            assert(all.take(i + 1).take(i as int) =~= all.take(i as int));
            assert(all.take(i + 1)[i as int] == all[i as int]);
        }
        let entry = &store.entries[i];
        if entry.id == target {
            removed.push(entry.audio_file_name.clone());
            found = true;
            proof {
                assert(all.take(i + 1)[i as int].id == id@);
            }
        } else {
            kept.push(entry.duplicate());
            proof {
                if spec_has_id(all.take(i + 1), id@) {
                    let j = choose|j: int| 0 <= j < i + 1 && #[trigger] all.take(i + 1)[j].id == id@;
                    assert(all.take(i as int)[j].id == id@);
                }
            }
        }
    }
    proof {
        assert(all.take(n as int) =~= all);
    }
    store.entries = kept;
    (found, removed)
}

/// The audio file name of the first session with id `id`, if there is one.
pub fn resolve_audio_path_for_id(store: &HistoryStore, id: &str) -> (r: Option<String>)
    ensures
        r is None <==> !spec_has_id(store@, id@),
        r matches Some(name) ==> exists|i: int|
            0 <= i < store@.len() && store@[i].id == id@ && name@ == store@[i].audio_file_name
                && forall|j: int| 0 <= j < i ==> store@[j].id != id@,
{
    let target = id.to_owned();
    let n = store.entries.len();
    for i in 0..n
        invariant
            n == store.entries.len(),
            target@ == id@,
            forall|j: int| 0 <= j < i ==> store@[j].id != id@,
    {
        proof {
            assert(store@[i as int] == store.entries@[i as int]@);
        }
        if store.entries[i].id == target {
            let name = store.entries[i].audio_file_name.clone();
            proof {
                assert(store@[i as int].id == id@);
                assert(name@ == store@[i as int].audio_file_name);
            }
            return Some(name);
        }
    }
    None
}

/// Adds a finished session as the newest entry and applies the retention
/// limit of `settings`. A session whose transcript is not valid is skipped
/// (`None`, nothing changes); otherwise the result lists the audio file names
/// of the sessions that retention dropped.
pub fn append_entry(store: &mut HistoryStore, entry: HistoryEntry, settings: &AppSettings) -> (r: Option<Vec<String>>)
    ensures
        !spec_is_valid_transcript(entry.raw_transcript@) ==> r is None && final(store)@ == old(store)@,
        spec_is_valid_transcript(entry.raw_transcript@) ==> {
            let grown = seq![entry@] + old(store)@;
            let keep = spec_retained_count(grown.len(), settings.history.retention_max_sessions) as int;
            &&& final(store)@ == grown.take(keep)
            &&& r is Some
            &&& r->Some_0.deep_view() == spec_audio_names(grown.skip(keep))
        },
{
    if !is_valid_transcript(entry.raw_transcript.as_str()) {
        return None;
    }
    let ghost before = store@;
    let ghost e = entry@;
    store.entries.insert(0, entry);
    proof {
        assert(store@ =~= seq![e] + before);
    }
    Some(enforce_retention_from_settings(store, settings))
}

/// Most sessions shown on one page.
pub const MAX_PAGE_SIZE: u32 = 100;

/// One page of the history, with the paging figures the settings UI shows.
#[derive(Debug, Clone)]
pub struct HistoryPage {
    pub items: Vec<HistoryEntry>,
    pub page: u32,
    pub page_size: u32,
    pub total_items: u32,
    pub total_pages: u32,
}

pub struct HistoryPageView {
    pub items: Seq<HistoryEntryView>,
    pub page: u32,
    pub page_size: u32,
    pub total_items: u32,
    pub total_pages: u32,
}

impl View for HistoryPage {
    type V = HistoryPageView;

    open spec fn view(&self) -> HistoryPageView {
        HistoryPageView {
            items: self.items@.map_values(|e: HistoryEntry| e@),
            page: self.page,
            page_size: self.page_size,
            total_items: self.total_items,
            total_pages: self.total_pages,
        }
    }
}

/// The requested page number, at least 1.
pub open spec fn spec_page_number(page: u32) -> u32 {
    if page < 1 {
        1
    } else {
        page
    }
}

/// The requested page size, brought into 1..=100.
pub open spec fn spec_page_size(page_size: u32) -> u32 {
    if page_size < 1 {
        1
    } else if page_size > MAX_PAGE_SIZE {
        MAX_PAGE_SIZE
    } else {
        page_size
    }
}

/// The number of pages for `total` sessions: the ceiling of `total / size`,
/// and 1 for an empty history.
pub open spec fn spec_total_pages(total: nat, size: nat) -> nat {
    if total == 0 {
        1
    } else {
        ((total + size - 1) / size as int) as nat
    }
}

/// Index of the first session of page `page` (1-based) with `size` sessions a page.
pub open spec fn spec_page_start(page: u32, size: u32) -> int {
    (page - 1) * size
}

/// The sessions on page `page` of `size` sessions.
pub open spec fn spec_page_items(entries: Seq<HistoryEntryView>, page: u32, size: u32) -> Seq<HistoryEntryView> {
    let start = spec_page_start(page, size);
    if start >= entries.len() {
        Seq::empty()
    } else if start + size <= entries.len() {
        entries.subrange(start, start + size)
    } else {
        entries.subrange(start, entries.len() as int)
    }
}

/// The session count as a page reports it: the length taken as a `u32`
/// (only its low 32 bits survive for a longer history).
pub open spec fn spec_item_count(len: nat) -> u32 {
    len as u32
}

/// The page `page` of the history, `page_size` sessions a page. The page
/// number is raised to at least 1 and the page size brought into 1..=100.
pub fn list_page(store: &HistoryStore, page: u32, page_size: u32) -> (r: HistoryPage)
    requires
        spec_page_start(spec_page_number(page), spec_page_size(page_size)) <= u32::MAX,
    ensures
        r@.page == spec_page_number(page),
        r@.page_size == spec_page_size(page_size),
        r@.total_items == spec_item_count(store@.len()),
        r@.total_pages == spec_total_pages(r@.total_items as nat, spec_page_size(page_size) as nat),
        r@.items == spec_page_items(store@, r@.page, r@.page_size),
{
    let safe_page: u32 = if page < 1 {
        1
    } else {
        page
    };
    let safe_size: u32 = if page_size < 1 {
        1
    } else if page_size > MAX_PAGE_SIZE {
        MAX_PAGE_SIZE
    } else {
        page_size
    };
    let len = store.entries.len();
    let total_items: u32 = #[verifier::truncate] (len as u32);
    let total_pages: u32 = if total_items == 0 {
        1
    } else {
        let t = total_items as u64;
        let z = safe_size as u64;
        let q = (t + z - 1) / z;
        assert(q <= t) by (nonlinear_arith)
            requires
                q as int == (t as int + z as int - 1) / (z as int),
                1 <= z,
                1 <= t,
        ;
        q as u32
    };
    let start = (safe_page - 1) * safe_size;
    let ghost all = store@;
    let mut items: Vec<HistoryEntry> = Vec::new();
    if (start as u64) < (len as u64) {
        let start = start as usize;
        let end: usize = if len - start < safe_size as usize {
            len
        } else {
            start + safe_size as usize
        };
        let mut k = start;
        while k < end
            invariant
                start <= k <= end <= len == store.entries.len(),
                all == store@,
                items@.map_values(|e: HistoryEntry| e@) =~= all.subrange(start as int, k as int),
            decreases end - k,
        {
            let ghost prev = items@;
            let item = store.entries[k].duplicate();
            items.push(item);
            proof {
                assert(all[k as int] == store.entries@[k as int]@);
                assert(items@ == prev.push(item));
                assert(items@.map_values(|e: HistoryEntry| e@) =~= prev.map_values(|e: HistoryEntry| e@).push(item@));
                assert(all.subrange(start as int, k + 1) =~= all.subrange(start as int, k as int).push(all[k as int]));
            }
            k = k + 1;
        }
    }
    proof {
        assert(items@.map_values(|e: HistoryEntry| e@) =~= spec_page_items(all, safe_page, safe_size));
    }
    HistoryPage { items, page: safe_page, page_size: safe_size, total_items, total_pages }
}

// ---------------------------------------------------------------------------
// Laws of the history
// ---------------------------------------------------------------------------

/// Retention keeps the newest sessions: at most `max` of them (none for 0),
/// as a prefix of the list, and the kept and dropped audio files together are
/// exactly the audio files of the list. Applying it again changes nothing.
pub proof fn law_retention_keeps_newest(entries: Seq<HistoryEntryView>, max: u32)
    ensures
        ({
            let keep = spec_retained_count(entries.len(), max) as int;
            &&& entries.take(keep).len() <= max
            &&& entries.take(keep).len() == if entries.len() <= max as nat { entries.len() } else { max as nat }
            &&& forall|i: int| 0 <= i < keep ==> #[trigger] entries.take(keep)[i] == entries[i]
            &&& spec_audio_names(entries.take(keep)) + spec_audio_names(entries.skip(keep)) == spec_audio_names(entries)
            &&& entries.take(keep).take(spec_retained_count(entries.take(keep).len(), max) as int) == entries.take(keep)
        }),
{
    let keep = spec_retained_count(entries.len(), max) as int;
    assert(spec_audio_names(entries.take(keep)) + spec_audio_names(entries.skip(keep)) =~= spec_audio_names(entries));
    assert(entries.take(keep).take(spec_retained_count(entries.take(keep).len(), max) as int) =~= entries.take(keep));
}

/// A valid session appended while retention allows at least one session
/// becomes the newest entry, and the history never grows past the limit.
pub proof fn law_append_puts_newest_first(entries: Seq<HistoryEntryView>, e: HistoryEntryView, max: u32)
    requires
        max >= 1,
    ensures
        ({
            let grown = seq![e] + entries;
            let kept = grown.take(spec_retained_count(grown.len(), max) as int);
            &&& kept.len() >= 1
            &&& kept[0] == e
            &&& kept.len() <= max
        }),
{
}

/// Deleting by id leaves no session with that id, keeps every other session,
/// drops one audio file per removed session, and deleting again changes nothing.
pub proof fn law_delete_removes_exactly_the_id(entries: Seq<HistoryEntryView>, id: Seq<char>)
    ensures
        !spec_has_id(spec_without_id(entries, id), id),
        spec_without_id(entries, id).len() + spec_audio_with_id(entries, id).len() == entries.len(),
        spec_has_id(entries, id) <==> spec_without_id(entries, id).len() < entries.len(),
        spec_without_id(spec_without_id(entries, id), id) == spec_without_id(entries, id),
    decreases entries.len(),
{
    if entries.len() > 0 {
        let n = entries.len() - 1;
        law_delete_removes_exactly_the_id(entries.take(n), id);
        let rest = spec_without_id(entries.take(n), id);
        if spec_has_id(entries, id) {
            let i = choose|i: int| 0 <= i < entries.len() && #[trigger] entries[i].id == id;
            if i < n {
                assert(entries.take(n)[i].id == id);
            }
        }
        if entries[n].id != id {
            let pushed = rest.push(entries[n]);
            assert(pushed.take(rest.len() as int) =~= rest);
            if spec_has_id(pushed, id) {
                let j = choose|j: int| 0 <= j < pushed.len() && #[trigger] pushed[j].id == id;
                assert(rest[j].id == id);
            }
            if spec_has_id(entries.take(n), id) {
                let j = choose|j: int| 0 <= j < n && #[trigger] entries.take(n)[j].id == id;
                assert(entries[j].id == id);
            }
        } else {
            assert(entries[n].id == id);
        }
    }
}

/// A cleanup keeps only sessions with a valid transcript whose audio is on
/// disk, and accounts for every dropped session with one audio file name.
pub proof fn law_cleanup_keeps_only_valid(entries: Seq<HistoryEntryView>, present: Seq<bool>)
    requires
        present.len() == entries.len(),
    ensures
        forall|i: int| 0 <= i < spec_cleaned(entries, present).len() ==> spec_is_valid_transcript(
            #[trigger] spec_cleaned(entries, present)[i].raw_transcript,
        ),
        spec_cleaned(entries, present).len() + spec_cleaned_audio(entries, present).len() == entries.len(),
    decreases entries.len(),
{
    if entries.len() > 0 {
        let n = entries.len() - 1;
        law_cleanup_keeps_only_valid(entries.take(n), present.take(n));
    }
}

/// A cleaned history whose audio files are all present is left as it is by
/// another cleanup.
pub proof fn law_cleanup_is_idempotent(entries: Seq<HistoryEntryView>, present: Seq<bool>)
    requires
        present.len() == entries.len(),
    ensures
        spec_cleaned(
            spec_cleaned(entries, present),
            Seq::new(spec_cleaned(entries, present).len(), |i: int| true),
        ) == spec_cleaned(entries, present),
{
    law_cleanup_keeps_only_valid(entries, present);
    lemma_cleanup_keeps_valid_present(spec_cleaned(entries, present));
}

proof fn lemma_cleanup_keeps_valid_present(entries: Seq<HistoryEntryView>)
    requires
        forall|i: int| 0 <= i < entries.len() ==> spec_is_valid_transcript(#[trigger] entries[i].raw_transcript),
    ensures
        spec_cleaned(entries, Seq::new(entries.len(), |i: int| true)) == entries,
    decreases entries.len(),
{
    if entries.len() > 0 {
        let n = entries.len() - 1;
        let all_true = Seq::new(entries.len(), |i: int| true);
        assert(all_true.take(n) =~= Seq::new(n as nat, |i: int| true));
        assert forall|i: int| 0 <= i < entries.take(n).len() implies spec_is_valid_transcript(
            #[trigger] entries.take(n)[i].raw_transcript,
        ) by {
            assert(entries.take(n)[i] == entries[i]);
        }
        lemma_cleanup_keeps_valid_present(entries.take(n));
        assert(spec_is_valid_transcript(entries[n].raw_transcript));
        assert(entries.take(n).push(entries[n]) =~= entries);
    }
}

/// Paging covers the history: the session at position `k` is on page
/// `k / size + 1`, at position `k % size` of that page, and that page is
/// within the page count.
pub proof fn law_every_entry_on_its_page(entries: Seq<HistoryEntryView>, size: u32, k: int)
    requires
        1 <= size,
        0 <= k < entries.len() <= u32::MAX,
    ensures
        ({
            let page = (k / (size as int) + 1) as u32;
            &&& spec_page_items(entries, page, size)[k % (size as int)] == entries[k]
            &&& page as nat <= spec_total_pages(spec_item_count(entries.len()) as nat, size as nat)
        }),
{
    let z = size as int;
    let q = k / z;
    let page = (q + 1) as u32;
    assert(k == q * z + k % z && 0 <= k % z < z) by (nonlinear_arith)
        requires
            z >= 1,
            q == k / z,
    ;
    assert(spec_page_start(page, size) == q * z);
    let len = entries.len() as int;
    assert(q + 1 <= (len + z - 1) / z) by (nonlinear_arith)
        requires
            z >= 1,
            q == k / z,
            0 <= k < len,
    {
        assert(k + 1 <= len);
        assert((k + z) / z == q + 1) by {
            assert(k + z == (q + 1) * z + k % z);
        }
    }
}

proof fn lemma_without_absent_id(entries: Seq<HistoryEntryView>, id: Seq<char>)
    requires
        !spec_has_id(entries, id),
    ensures
        spec_without_id(entries, id) == entries,
    decreases entries.len(),
{
    if entries.len() > 0 {
        let n = entries.len() - 1;
        if spec_has_id(entries.take(n), id) {
            let j = choose|j: int| 0 <= j < n && #[trigger] entries.take(n)[j].id == id;
            assert(entries[j].id == id);
        }
        lemma_without_absent_id(entries.take(n), id);
        assert(entries[n].id != id);
        assert(entries.take(n).push(entries[n]) =~= entries);
    }
}

proof fn lemma_without_id_skips_front(e: HistoryEntryView, entries: Seq<HistoryEntryView>, id: Seq<char>)
    requires
        e.id == id,
    ensures
        spec_without_id(seq![e] + entries, id) == spec_without_id(entries, id),
    decreases entries.len(),
{
    if entries.len() == 0 {
        let one = seq![e] + entries;
        assert(one.take(0) =~= Seq::<HistoryEntryView>::empty());
        assert(one[0].id == id);
        assert(spec_without_id(one.take(0), id) == Seq::<HistoryEntryView>::empty());
        assert(spec_without_id(one, id) == spec_without_id(one.take(0), id));
    } else {
        let n = entries.len() - 1;
        let grown = seq![e] + entries;
        assert(grown.take(grown.len() - 1) =~= seq![e] + entries.take(n));
        assert(grown[grown.len() - 1] == entries[n]);
        lemma_without_id_skips_front(e, entries.take(n), id);
        assert(spec_without_id(grown.take(grown.len() - 1), id) == spec_without_id(entries.take(n), id));
    }
}

/// Deleting a freshly appended session undoes the append: when its id was not
/// in the history and retention had room for it, the history is back to what
/// it was.
pub proof fn law_delete_undoes_append(entries: Seq<HistoryEntryView>, e: HistoryEntryView, max: u32)
    requires
        !spec_has_id(entries, e.id),
        entries.len() + 1 <= max,
    ensures
        ({
            let grown = seq![e] + entries;
            spec_without_id(grown.take(spec_retained_count(grown.len(), max) as int), e.id) == entries
        }),
{
    let grown = seq![e] + entries;
    assert(grown.take(spec_retained_count(grown.len(), max) as int) =~= grown);
    lemma_without_id_skips_front(e, entries, e.id);
    lemma_without_absent_id(entries, e.id);
}

/// Pages 1..=n of `entries` (`size` sessions a page), one after the other.
pub open spec fn spec_pages_concat(entries: Seq<HistoryEntryView>, size: u32, n: nat) -> Seq<HistoryEntryView>
    decreases n,
{
    if n == 0 {
        Seq::empty()
    } else {
        spec_pages_concat(entries, size, (n - 1) as nat) + spec_page_items(entries, n as u32, size)
    }
}

proof fn lemma_pages_concat_prefix(entries: Seq<HistoryEntryView>, size: u32, n: nat)
    requires
        1 <= size,
        n <= u32::MAX,
    ensures
        spec_pages_concat(entries, size, n) == entries.take(
            if n * size <= entries.len() { (n * size) as int } else { entries.len() as int },
        ),
    decreases n,
{
    let z = size as int;
    if n == 0 {
        assert(entries.take(0) =~= Seq::<HistoryEntryView>::empty());
    } else {
        let m = (n - 1) as nat;
        lemma_pages_concat_prefix(entries, size, m);
        let start = spec_page_start(n as u32, size);
        assert(start == m * z) by (nonlinear_arith)
            requires
                start == ((n as u32) - 1) * z,
                n <= u32::MAX,
                m == n - 1,
        ;
        assert(n * z == m * z + z) by (nonlinear_arith)
            requires
                m == n - 1,
        ;
        assert(m * z >= 0) by (nonlinear_arith)
            requires
                z >= 1,
        ;
        let len = entries.len() as int;
        let prev = spec_pages_concat(entries, size, m);
        let page = spec_page_items(entries, n as u32, size);
        if start >= len {
            assert(page =~= Seq::<HistoryEntryView>::empty());
            assert(prev + page =~= prev);
        } else if start + z <= len {
            assert(prev + page =~= entries.take(start + z));
        } else {
            assert(prev + page =~= entries.take(len));
        }
    }
}

/// Paging partitions the history: with `T` pages of `size` sessions, pages
/// 1..=T one after the other give back every session exactly once and in
/// order, every page before the last is full, and the page after the last is
/// empty.
pub proof fn law_pages_partition_history(entries: Seq<HistoryEntryView>, size: u32)
    requires
        1 <= size,
        entries.len() < u32::MAX,
    ensures
        ({
            let t = spec_total_pages(spec_item_count(entries.len()) as nat, size as nat);
            &&& spec_pages_concat(entries, size, t) == entries
            &&& forall|p: u32| 1 <= p < t ==> #[trigger] spec_page_items(entries, p, size).len() == size
            &&& spec_page_items(entries, (t + 1) as u32, size).len() == 0
        }),
{
    let z = size as int;
    let len = entries.len() as int;
    let t = spec_total_pages(entries.len(), size as nat);
    if len == 0 {
        assert(t == 1);
    } else {
        assert(t * z >= len && (t - 1) * z < len && t <= len && t >= 1) by (nonlinear_arith)
            requires
                t == (len + z - 1) / z,
                z >= 1,
                len >= 1,
        {
            let q = (len + z - 1) / z;
            let r = (len + z - 1) % z;
            assert(len + z - 1 == q * z + r && 0 <= r < z);
        }
    }
    assert(t >= 1);
    assert(t * z >= len) by (nonlinear_arith)
        requires
            (len == 0 && t == 1 && z >= 1) || t * z >= len,
    ;
    lemma_pages_concat_prefix(entries, size, t);
    assert(entries.take(len) =~= entries);
    assert forall|p: u32| 1 <= p < t implies #[trigger] spec_page_items(entries, p, size).len() == size by {
        assert((p - 1) * z + z <= len) by (nonlinear_arith)
            requires
                1 <= p < t,
                (t - 1) * z < len,
                z >= 1,
        {
            assert(p * z <= (t - 1) * z);
        }
        assert(spec_page_start(p, size) == (p - 1) * z);
        assert(spec_page_start(p, size) < len) by (nonlinear_arith)
            requires
                spec_page_start(p, size) == (p - 1) * z,
                (p - 1) * z + z <= len,
                z >= 1,
        ;
    }
    assert(spec_page_start((t + 1) as u32, size) == t * z);
}

} // verus!
