//! Whole runs of the rotation: what the machine asks for over a sequence of
//! events, whatever the events are.

use crate::aws::config::loaded;
use crate::aws::connection::session_request;
use crate::aws::key_rotator::{inactive, inactive_ids, is_inactive, ActionView, EventView, Phase, RotationErrorView, RotatorView, WarningView};
use crate::aws::model::{AccessKeyListingView, AccessKeyMetadataView, AccessKeyView};
use crate::prompt::{answer_value, code_prompt, title_cased, trim_end};
use vstd::prelude::*;

verus! {

/// One turn of a run: the event that the driver reports, and what the store
/// is written out as at that moment.
pub struct Turn {
    pub event: EventView,
    pub rendered: Option<Seq<u8>>,
}

/// The run that `start` has become after the turns of `script`.
pub open spec fn run(start: RotatorView, script: Seq<Turn>) -> RotatorView
    decreases script.len(),
{
    if script.len() == 0 {
        start
    } else {
        run(start, script.drop_last()).step(script.last().event, script.last().rendered).0
    }
}

/// The action that answers the turn `k` of `script`.
pub open spec fn answer(start: RotatorView, script: Seq<Turn>, k: int) -> ActionView {
    run(start, script.take(k)).step(script[k].event, script[k].rendered).1
}

/// The actions of a run, one in answer to each turn.
pub open spec fn actions(start: RotatorView, script: Seq<Turn>) -> Seq<ActionView> {
    Seq::new(script.len(), |k: int| answer(start, script, k))
}

/// How far a phase is along the workflow.
pub open spec fn order(phase: Phase) -> nat {
    match phase {
        Phase::Init => 0,
        Phase::Loaded => 1,
        Phase::Authenticating => 2,
        Phase::Authenticated => 3,
        Phase::Enumerated => 4,
        Phase::Pruned => 5,
        Phase::Created => 6,
        Phase::Persisted => 7,
        Phase::Done => 8,
        Phase::Failed => 9,
    }
}

/// An action that reaches the identity service or opens the session.
pub open spec fn is_remote(action: ActionView) -> bool {
    action is OpenSession || action is ListKeys || action is DeleteKey || action is CreateKey
        || action is UpdateKey
}

/// The event reports that the new key was created.
pub open spec fn brings_key(event: EventView) -> bool {
    match event {
        EventView::KeyCreated { key: Some(_) } => true,
        _ => false,
    }
}

/// The turns in which the last answer to the listing is reported and then,
/// one by one, how each deletion went.
pub open spec fn pruning_script(page: AccessKeyListingView, outcomes: Seq<bool>) -> Seq<Turn> {
    seq![Turn { event: EventView::KeysListed { listing: Some(page) }, rendered: None }] + Seq::new(
        outcomes.len(),
        |i: int| Turn { event: EventView::KeyDeleted { deleted: outcomes[i] }, rendered: None },
    )
}

/// A deletion for each of `ids`, in their order, and then the creation of
/// the new key.
pub open spec fn pruning_actions(ids: Seq<Seq<char>>, user_name: Seq<char>) -> Seq<ActionView> {
    Seq::new(
        ids.len() + 1,
        |i: int|
            if i < ids.len() {
                ActionView::DeleteKey { access_key_id: ids[i], user_name }
            } else {
                ActionView::CreateKey { user_name }
            },
    )
}

proof fn lemma_run_unfolds(start: RotatorView, script: Seq<Turn>, k: int)
    requires
        0 <= k < script.len(),
    ensures
        run(start, script.take(k + 1)) == run(start, script.take(k)).step(
            script[k].event,
            script[k].rendered,
        ).0,
        run(start, script.take(0)) == start,
        run(start, script.take(script.len() as int)) == run(start, script),
{
    assert(script.take(k + 1).drop_last() == script.take(k));
    assert(script.take(script.len() as int) == script);
}

/// Whatever is reported to it, a run that holds what its phase needs goes on
/// holding it.
pub proof fn law_step_keeps_well_formed(s: RotatorView, event: EventView, rendered: Option<Seq<u8>>)
    requires
        s.well_formed(),
    ensures
        s.step(event, rendered).0.well_formed(),
{
    if s.phase == Phase::Pruned {
        if let EventView::KeyCreated { key: Some(key) } = event {
            crate::aws::config::law_written_key_is_held(s.store->Some_0, key);
        }
    }
}

/// A step never takes a run back.
proof fn lemma_step_moves_on(s: RotatorView, event: EventView, rendered: Option<Seq<u8>>)
    ensures
        order(s.phase) <= order(s.step(event, rendered).0.phase),
{
}

proof fn lemma_run_moves_on(start: RotatorView, script: Seq<Turn>, i: int, j: int)
    requires
        0 <= i <= j <= script.len(),
    ensures
        order(run(start, script.take(i)).phase) <= order(run(start, script.take(j)).phase),
    decreases j - i,
{
    if i < j {
        lemma_run_moves_on(start, script, i, j - 1);
        lemma_run_unfolds(start, script, j - 1);
        let before = run(start, script.take(j - 1));
        lemma_step_moves_on(before, script[j - 1].event, script[j - 1].rendered);
    }
}

/// What an action tells of the step that asked for it.
proof fn lemma_action_tells_step(s: RotatorView, event: EventView, rendered: Option<Seq<u8>>)
    ensures
        ({
            let (next, action) = s.step(event, rendered);
            &&& action is DeleteKey ==> next.phase == Phase::Enumerated && (s.phase
                == Phase::Authenticated || s.phase == Phase::Enumerated)
            &&& action is CreateKey ==> next.phase == Phase::Pruned && (s.phase
                == Phase::Authenticated || s.phase == Phase::Enumerated)
            &&& action is WriteStore ==> next.phase == Phase::Created && s.phase == Phase::Pruned
                && brings_key(event)
            &&& action is UpdateKey ==> next.phase == Phase::Persisted && s.phase == Phase::Created
                && event == (EventView::StoreWritten { written: true })
            &&& next.phase == Phase::Enumerated ==> action is DeleteKey
            &&& next.phase == Phase::Pruned ==> action is CreateKey
            &&& next.phase == Phase::Created ==> action is WriteStore
            &&& next.phase == Phase::Persisted ==> action is UpdateKey
        }),
{
}

/// The keys that a run has listed once `page` is added to them.
pub open spec fn listed_with(start: RotatorView, page: AccessKeyListingView) -> Seq<
    AccessKeyMetadataView,
> {
    start.listed + page.access_key_metadata
}

/// Once the listing is complete, a deletion is asked for each listed key
/// that is inactive, in the listing's order and over all of its answers, and
/// for no other key; each is asked for whether or not the ones before it
/// went through; and the new key is asked for when the last of them is
/// answered, not before.
pub proof fn law_every_inactive_key_is_deleted(
    start: RotatorView,
    page: AccessKeyListingView,
    outcomes: Seq<bool>,
)
    requires
        start.well_formed(),
        start.phase == Phase::Authenticated,
        page.is_truncated != Some(true),
        outcomes.len() == inactive_ids(listed_with(start, page)).len(),
    ensures
        actions(start, pruning_script(page, outcomes)) == pruning_actions(
            inactive_ids(listed_with(start, page)),
            start.store->Some_0.username,
        ),
        run(start, pruning_script(page, outcomes)).phase == Phase::Pruned,
        run(start, pruning_script(page, outcomes)).store == start.store,
        run(start, pruning_script(page, outcomes)).old_key == start.old_key,
        inactive_ids(listed_with(start, page)).len() == listed_with(start, page).filter(
            |key: AccessKeyMetadataView| is_inactive(key),
        ).len(),
{
    let script = pruning_script(page, outcomes);
    let expected = pruning_actions(
        inactive_ids(listed_with(start, page)),
        start.store->Some_0.username,
    );
    assert forall|k: int| 0 <= k < script.len() implies answer(start, script, k) == expected[k] by {
        lemma_pruning_prefix(start, page, outcomes, k);
    }
    assert(actions(start, script) =~= expected);
    lemma_pruning_prefix(start, page, outcomes, outcomes.len() as int);
    lemma_run_unfolds(start, script, outcomes.len() as int);
}

proof fn lemma_pruning_prefix(
    start: RotatorView,
    page: AccessKeyListingView,
    outcomes: Seq<bool>,
    k: int,
)
    requires
        start.well_formed(),
        start.phase == Phase::Authenticated,
        page.is_truncated != Some(true),
        outcomes.len() == inactive_ids(listed_with(start, page)).len(),
        0 <= k <= outcomes.len(),
    ensures
        ({
            let script = pruning_script(page, outcomes);
            let ids = inactive_ids(listed_with(start, page));
            let after = run(start, script.take(k + 1));
            &&& answer(start, script, k) == pruning_actions(ids, start.store->Some_0.username)[k]
            &&& after.doomed == ids
            &&& after.cursor == k
            &&& after.store == start.store
            &&& after.old_key == start.old_key
            &&& after.created == start.created
            &&& after.phase == if k < ids.len() {
                Phase::Enumerated
            } else {
                Phase::Pruned
            }
        }),
    decreases k,
{
    let script = pruning_script(page, outcomes);
    lemma_run_unfolds(start, script, k);
    if k > 0 {
        lemma_pruning_prefix(start, page, outcomes, k - 1);
    }
}

/// The turns in which the service answers the listing piece by piece, each
/// answer but the last saying that more follow.
pub open spec fn paging_script(pages: Seq<AccessKeyListingView>) -> Seq<Turn> {
    Seq::new(pages.len(), |i: int| turn(EventView::KeysListed { listing: Some(pages[i]) }))
}

/// The keys of the answers, one answer after the other.
pub open spec fn gathered(pages: Seq<AccessKeyListingView>) -> Seq<AccessKeyMetadataView>
    decreases pages.len(),
{
    if pages.len() == 0 {
        Seq::empty()
    } else {
        gathered(pages.drop_last()) + pages.last().access_key_metadata
    }
}

/// The answer says that more follow and where.
pub open spec fn goes_on(page: AccessKeyListingView) -> bool {
    page.is_truncated == Some(true) && page.marker is Some
}

/// As long as the service says that more keys follow, the run asks for the
/// rest from the marker of the last answer, and keeps every key of every
/// answer, in the order in which they came; it deletes and creates nothing
/// meanwhile.
pub proof fn law_listing_is_read_to_the_end(
    start: RotatorView,
    pages: Seq<AccessKeyListingView>,
    k: int,
)
    requires
        start.phase == Phase::Authenticated,
        forall|i: int| 0 <= i < pages.len() ==> goes_on(#[trigger] pages[i]),
        0 <= k <= pages.len(),
    ensures
        ({
            let after = run(start, paging_script(pages).take(k));
            &&& after == RotatorView { listed: start.listed + gathered(pages.take(k)), ..start }
            &&& k < pages.len() ==> answer(start, paging_script(pages), k) == (
            ActionView::ListKeys {
                user_name: start.store->Some_0.username,
                marker: pages[k].marker,
            })
        }),
    decreases k,
{
    let script = paging_script(pages);
    if k > 0 {
        law_listing_is_read_to_the_end(start, pages, k - 1);
        lemma_run_unfolds(start, script, k - 1);
        assert(pages.take(k).drop_last() == pages.take(k - 1));
        assert(goes_on(pages[k - 1]));
        let before = run(start, script.take(k - 1));
        assert(before.listed + pages[k - 1].access_key_metadata =~= start.listed + gathered(
            pages.take(k),
        ));
    } else {
        assert(script.take(0) =~= Seq::empty());
        assert(start.listed + gathered(pages.take(0)) =~= start.listed);
    }
    if k < pages.len() {
        assert(goes_on(pages[k]));
    }
}

/// Where the keys cannot be listed, or the service says that more follow
/// without saying where, no deletion is asked for: the new key is asked for
/// at once, and the failure is kept as a warning.
pub proof fn law_failed_listing_deletes_nothing(
    start: RotatorView,
    listing: Option<AccessKeyListingView>,
)
    requires
        start.well_formed(),
        start.phase == Phase::Authenticated,
        listing matches Some(page) ==> page.is_truncated == Some(true) && page.marker is None,
    ensures
        ({
            let (next, action) = start.step(EventView::KeysListed { listing }, None);
            &&& action == ActionView::CreateKey { user_name: start.store->Some_0.username }
            &&& next.phase == Phase::Pruned
            &&& next.warnings == start.warnings.push(WarningView::Enumeration)
        }),
{
}

/// The run from its first step on holds the key that the store held when it
/// was loaded.
proof fn lemma_old_key_is_kept(script: Seq<Turn>, k: int)
    requires
        0 <= k <= script.len(),
    ensures
        ({
            let at = run(RotatorView::initial(), script.take(k));
            &&& at.phase == Phase::Init ==> k == 0
            &&& at.phase != Phase::Init && at.phase != Phase::Failed ==> {
                &&& script[0].event matches EventView::StoreRead { credentials, config }
                &&& loaded(credentials, config) matches Ok(store)
                &&& at.old_key == Some(store.active_key())
            }
        }),
    decreases k,
{
    if k > 0 {
        lemma_old_key_is_kept(script, k - 1);
        lemma_run_unfolds(RotatorView::initial(), script, k - 1);
        if k == 1 {
            assert(script.take(0) =~= Seq::empty());
        }
    } else {
        assert(script.take(0) =~= Seq::empty());
    }
}

/// Whatever the events of a run are, the only key whose status is ever
/// changed is the key that the store held when the run loaded it, and the
/// status it is given is `Inactive`. What the listing holds, and whether
/// there was one, has no part in it.
pub proof fn law_only_the_old_key_is_disabled(script: Seq<Turn>, k: int)
    requires
        0 <= k < script.len(),
        answer(RotatorView::initial(), script, k) is UpdateKey,
    ensures
        ({
            let action = answer(RotatorView::initial(), script, k);
            &&& script[0].event matches EventView::StoreRead { credentials, config }
            &&& loaded(credentials, config) matches Ok(store)
            &&& action->UpdateKey_access_key_id == store.active_key().access_key_id
            &&& action->UpdateKey_status == inactive()
        }),
{
    lemma_old_key_is_kept(script, k);
    let at = run(RotatorView::initial(), script.take(k));
    lemma_action_tells_step(at, script[k].event, script[k].rendered);
}

/// The order of a run, whatever its events are. A deletion is asked for
/// only before the new key is; the new key is asked for once, after the
/// listing is answered or the last deletion is; the store is asked to be
/// written once, in answer to the new key; and the old key is asked to be
/// disabled once, in answer to the store's having been written.
pub proof fn law_mutations_come_in_order(script: Seq<Turn>, i: int, j: int)
    requires
        0 <= i < j < script.len(),
    ensures
        ({
            let first = answer(RotatorView::initial(), script, i);
            let second = answer(RotatorView::initial(), script, j);
            let before = answer(RotatorView::initial(), script, j - 1);
            &&& second is DeleteKey ==> !(first is CreateKey || first is WriteStore
                || first is UpdateKey)
            &&& second is CreateKey ==> !(first is CreateKey || first is WriteStore
                || first is UpdateKey) && (before is ListKeys || before is DeleteKey)
            &&& second is WriteStore ==> !(first is WriteStore || first is UpdateKey)
                && before is CreateKey && brings_key(script[j].event)
            &&& second is UpdateKey ==> !(first is UpdateKey) && before is WriteStore
                && script[j].event == (EventView::StoreWritten { written: true })
        }),
{
    let start = RotatorView::initial();
    let at_i = run(start, script.take(i));
    let after_i = run(start, script.take(i + 1));
    let at_j = run(start, script.take(j));
    let at_before = run(start, script.take(j - 1));
    lemma_run_unfolds(start, script, i);
    lemma_run_unfolds(start, script, j - 1);
    lemma_run_moves_on(start, script, i + 1, j);
    lemma_action_tells_step(at_i, script[i].event, script[i].rendered);
    lemma_action_tells_step(at_j, script[j].event, script[j].rendered);
    lemma_action_tells_step(at_before, script[j - 1].event, script[j - 1].rendered);
    lemma_step_moves_on(at_before, script[j - 1].event, script[j - 1].rendered);
}

/// A run that was given up stays given up: whatever is reported to it, it
/// answers with the reason and asks for nothing.
pub proof fn law_failed_run_asks_for_nothing(start: RotatorView, script: Seq<Turn>, k: int)
    requires
        start.phase == Phase::Failed,
        0 <= k < script.len(),
    ensures
        run(start, script.take(k)) == start,
        answer(start, script, k) == (ActionView::Abort { error: start.failure->Some_0 }),
        !is_remote(answer(start, script, k)),
    decreases k,
{
    if k > 0 {
        law_failed_run_asks_for_nothing(start, script, k - 1);
        lemma_run_unfolds(start, script, k - 1);
    } else {
        assert(script.take(0) =~= Seq::empty());
    }
}

/// An answer that is no valid code ends the run on the spot, before the
/// session is opened: the run answers with the reason, and nothing that
/// follows makes it reach the service.
pub proof fn law_invalid_code_reaches_no_service(
    start: RotatorView,
    text: Seq<char>,
    script: Seq<Turn>,
    k: int,
)
    requires
        start.phase == Phase::Loaded,
        answer_value(text) is Err,
        0 <= k < script.len(),
    ensures
        ({
            let (next, action) = start.step(EventView::CodeEntered { answer: text }, None);
            let error = RotationErrorView::InvalidCode(answer_value(text)->Err_0);
            &&& action == ActionView::Abort { error }
            &&& next.phase == Phase::Failed
            &&& answer(next, script, k) == ActionView::Abort { error }
            &&& !is_remote(answer(next, script, k))
        }),
{
    let next = start.step(EventView::CodeEntered { answer: text }, None).0;
    law_failed_run_asks_for_nothing(next, script, k);
}

/// The store is asked to be written with the new key in the place of the
/// profile's key, as the bytes that the store with the new key is written
/// out as; where it cannot be written out, the run is given up and names
/// the new key.
pub proof fn law_written_store_holds_the_new_key(
    start: RotatorView,
    key: AccessKeyView,
    rendered: Option<Seq<u8>>,
)
    requires
        start.well_formed(),
        start.phase == Phase::Pruned,
    ensures
        ({
            let (next, action) = start.step(EventView::KeyCreated { key: Some(key) }, rendered);
            let held = next.store->Some_0.active_key();
            &&& held.access_key_id == key.access_key_id
            &&& held.secret_access_key == key.secret_access_key
            &&& next.old_key == start.old_key
            &&& match rendered {
                Some(contents) => action == ActionView::WriteStore { contents },
                None => action == ActionView::Abort {
                    error: RotationErrorView::Persistence { orphaned_key_id: key.access_key_id },
                },
            }
        }),
{
    crate::aws::config::law_written_key_is_held(start.store->Some_0, key);
}

/// Where the new key cannot be created, the run is given up with the store
/// as it was: nothing is written, locally or remotely, from then on.
pub proof fn law_failed_creation_leaves_the_store(start: RotatorView, rendered: Option<Seq<u8>>)
    requires
        start.phase == Phase::Pruned,
    ensures
        ({
            let (next, action) = start.step(EventView::KeyCreated { key: None }, rendered);
            &&& action == ActionView::Abort { error: RotationErrorView::Creation }
            &&& next.phase == Phase::Failed
            &&& next.store == start.store
        }),
{
}

/// A turn in which nothing is written out.
pub open spec fn turn(event: EventView) -> Turn {
    Turn { event, rendered: None }
}

/// The turns of a run in which nothing fails for good: the store's files
/// are read, the operator answers, the session opens, the keys are listed
/// in one answer, each deletion goes as `outcomes` says, the new key is created, the store
/// is written out as `contents` and replaced, and the old key is disabled
/// or not.
pub open spec fn complete_script(
    credentials: Seq<u8>,
    config: Seq<u8>,
    text: Seq<char>,
    page: AccessKeyListingView,
    outcomes: Seq<bool>,
    key: AccessKeyView,
    contents: Seq<u8>,
    disabled: bool,
) -> Seq<Turn> {
    seq![
        turn(EventView::StoreRead { credentials: Some(credentials), config: Some(config) }),
        turn(EventView::CodeEntered { answer: text }),
        turn(EventView::SessionOpened { outcome: Ok(()) }),
    ] + pruning_script(page, outcomes) + seq![
        Turn { event: EventView::KeyCreated { key: Some(key) }, rendered: Some(contents) },
        turn(EventView::StoreWritten { written: true }),
        turn(EventView::KeyDisabled { disabled }),
    ]
}

proof fn lemma_run_appends(start: RotatorView, first: Seq<Turn>, second: Seq<Turn>)
    ensures
        run(start, first + second) == run(run(start, first), second),
    decreases second.len(),
{
    if second.len() == 0 {
        assert(first + second =~= first);
    } else {
        assert((first + second).drop_last() =~= first + second.drop_last());
        lemma_run_appends(start, first, second.drop_last());
    }
}

proof fn lemma_answer_appends(start: RotatorView, first: Seq<Turn>, second: Seq<Turn>, k: int)
    requires
        0 <= k < first.len() + second.len(),
    ensures
        answer(start, first + second, k) == if k < first.len() {
            answer(start, first, k)
        } else {
            answer(run(start, first), second, k - first.len())
        },
{
    if k < first.len() {
        assert((first + second).take(k) =~= first.take(k));
    } else {
        assert((first + second).take(k) =~= first + second.take(k - first.len()));
        lemma_run_appends(start, first, second.take(k - first.len()));
    }
}

proof fn lemma_actions_append(start: RotatorView, first: Seq<Turn>, second: Seq<Turn>)
    ensures
        actions(start, first + second) == actions(start, first) + actions(run(start, first), second),
{
    let whole = actions(start, first + second);
    let parts = actions(start, first) + actions(run(start, first), second);
    assert forall|k: int| 0 <= k < whole.len() implies whole[k] == parts[k] by {
        lemma_answer_appends(start, first, second, k);
    }
    assert(whole =~= parts);
}

/// A run in which nothing fails for good asks, in this order and for
/// nothing else: for the code; for the session of the store's profile and
/// device with the six digits that were entered; for the listing; for the deletion of
/// each inactive key of the listing; for one new key; for the store to be
/// written with it; for the key that the store held at first to be
/// disabled; and then it is complete.
pub proof fn law_complete_run(
    credentials: Seq<u8>,
    config: Seq<u8>,
    text: Seq<char>,
    page: AccessKeyListingView,
    outcomes: Seq<bool>,
    key: AccessKeyView,
    contents: Seq<u8>,
    disabled: bool,
)
    requires
        loaded(Some(credentials), Some(config)) is Ok,
        answer_value(text) is Ok,
        page.is_truncated != Some(true),
        outcomes.len() == inactive_ids(page.access_key_metadata).len(),
    ensures
        ({
            let store = loaded(Some(credentials), Some(config))->Ok_0;
            let script = complete_script(
                credentials,
                config,
                text,
                page,
                outcomes,
                key,
                contents,
                disabled,
            );
            let end = run(RotatorView::initial(), script);
            &&& end.phase == Phase::Done
            &&& end.store == Some(store.with_key(key))
            &&& actions(RotatorView::initial(), script) == seq![
                ActionView::AskCode { prompt: title_cased(code_prompt()) + ": "@ },
                ActionView::OpenSession {
                    request: session_request(
                        store.profile,
                        store.mfa_arn,
                        trim_end(text),
                    ),
                },
                ActionView::ListKeys { user_name: store.username, marker: None },
            ] + pruning_actions(inactive_ids(page.access_key_metadata), store.username) + seq![
                ActionView::WriteStore { contents },
                ActionView::UpdateKey {
                    access_key_id: store.active_key().access_key_id,
                    status: inactive(),
                    user_name: store.username,
                },
                ActionView::Finish { warnings: end.warnings },
            ]
        }),
{
    let store = loaded(Some(credentials), Some(config))->Ok_0;
    let start = RotatorView::initial();
    let opening = seq![
        turn(EventView::StoreRead { credentials: Some(credentials), config: Some(config) }),
        turn(EventView::CodeEntered { answer: text }),
        turn(EventView::SessionOpened { outcome: Ok(()) }),
    ];
    let pruning = pruning_script(page, outcomes);
    let closing = seq![
        Turn { event: EventView::KeyCreated { key: Some(key) }, rendered: Some(contents) },
        turn(EventView::StoreWritten { written: true }),
        turn(EventView::KeyDisabled { disabled }),
    ];
    lemma_run_unfolds(start, opening, 0);
    lemma_run_unfolds(start, opening, 1);
    lemma_run_unfolds(start, opening, 2);
    let listing = run(start, opening);
    assert(listing.phase == Phase::Authenticated);
    assert(listing.well_formed());
    assert(listed_with(listing, page) =~= page.access_key_metadata);
    law_every_inactive_key_is_deleted(listing, page, outcomes);
    let pruned = run(listing, pruning);
    lemma_run_unfolds(pruned, closing, 0);
    lemma_run_unfolds(pruned, closing, 1);
    lemma_run_unfolds(pruned, closing, 2);
    lemma_run_appends(start, opening, pruning);
    lemma_run_appends(start, opening + pruning, closing);
    lemma_actions_append(start, opening, pruning);
    lemma_actions_append(start, opening + pruning, closing);
    assert(actions(start, opening) =~= seq![
        answer(start, opening, 0),
        answer(start, opening, 1),
        answer(start, opening, 2),
    ]);
    assert(actions(pruned, closing) =~= seq![
        answer(pruned, closing, 0),
        answer(pruned, closing, 1),
        answer(pruned, closing, 2),
    ]);
}

} // verus!
