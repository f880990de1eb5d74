//! The rotation workflow as a state machine. The machine makes every
//! decision of a run; a driver carries out the action it is handed and
//! reports how that went.

use crate::aws::config::{loaded, AwsConfigurationManager, ConfigError, ConfigErrorView, StoreView};
use crate::aws::connection::{session_request, AuthError, CredentialsProviderFactory, StsSessionRequest, StsSessionRequestView};
use crate::aws::model::{listing_of, text_of, AccessKey, AccessKeyListing, AccessKeyListingView, AccessKeyMetadata, AccessKeyMetadataView, AccessKeyView};
use crate::prompt::{answer_value, check_answer, code_prompt, prompt_label, title_cased, trim_answer, trim_end, AnswerError};
use vstd::prelude::*;

verus! {

/// The status of a key that is out of use.
pub open spec fn inactive() -> Seq<char> {
    "Inactive"@
}

/// How far a run has come. Each phase but the last two waits for the
/// outcome of one action.
#[derive(Debug, Clone, Copy, PartialEq, Eq, Structural)]
pub enum Phase {
    /// Nothing is done yet; the store's two files are to be read.
    Init,
    /// The store is loaded and the old key captured; the operator is being
    /// asked for the one-time code.
    Loaded,
    /// The code is accepted; the session is being opened.
    Authenticating,
    /// The session is open; the identity's keys are being listed.
    Authenticated,
    /// The keys are listed; an inactive one is being deleted.
    Enumerated,
    /// No inactive key is left to delete; the new key is being created.
    Pruned,
    /// The new key exists; the store is being written out.
    Created,
    /// The store is written out; the old key is being disabled.
    Persisted,
    /// The run is complete.
    Done,
    /// The run was given up.
    Failed,
}

/// What went wrong without ending the run.
#[derive(Debug)]
pub enum Warning {
    /// The keys could not be listed; none was deleted.
    Enumeration,
    /// An inactive key could not be deleted.
    Deletion { access_key_id: String },
    /// The old key could not be disabled.
    Deactivation { access_key_id: String },
}

/// A `Warning`, its strings as sequences of characters.
pub enum WarningView {
    Enumeration,
    Deletion { access_key_id: Seq<char> },
    Deactivation { access_key_id: Seq<char> },
}

impl View for Warning {
    type V = WarningView;

    open spec fn view(&self) -> WarningView {
        match self {
            Warning::Enumeration => WarningView::Enumeration,
            Warning::Deletion { access_key_id } => WarningView::Deletion {
                access_key_id: access_key_id@,
            },
            Warning::Deactivation { access_key_id } => WarningView::Deactivation {
                access_key_id: access_key_id@,
            },
        }
    }
}

impl Clone for Warning {
    fn clone(&self) -> (res: Self)
        ensures
            res@ == self@,
    {
        match self {
            Warning::Enumeration => Warning::Enumeration,
            Warning::Deletion { access_key_id } => Warning::Deletion {
                access_key_id: access_key_id.clone(),
            },
            Warning::Deactivation { access_key_id } => Warning::Deactivation {
                access_key_id: access_key_id.clone(),
            },
        }
    }
}

/// What ended a run before its time.
#[derive(Debug)]
pub enum RotationError {
    /// The store could not be loaded.
    Config(ConfigError),
    /// The operator's answer is no one-time code.
    InvalidCode(AnswerError),
    /// No session could be opened.
    Auth(AuthError),
    /// The new key could not be created.
    Creation,
    /// The new key exists but the store could not be written out: the key
    /// named here is recorded nowhere.
    Persistence { orphaned_key_id: String },
    /// The driver reported the outcome of an action that was not asked for.
    UnexpectedEvent,
}

/// A `RotationError`, its strings as sequences of characters.
pub enum RotationErrorView {
    Config(ConfigErrorView),
    InvalidCode(AnswerError),
    Auth(AuthError),
    Creation,
    Persistence { orphaned_key_id: Seq<char> },
    UnexpectedEvent,
}

impl View for RotationError {
    type V = RotationErrorView;

    open spec fn view(&self) -> RotationErrorView {
        match self {
            RotationError::Config(error) => RotationErrorView::Config(error@),
            RotationError::InvalidCode(error) => RotationErrorView::InvalidCode(*error),
            RotationError::Auth(error) => RotationErrorView::Auth(*error),
            RotationError::Creation => RotationErrorView::Creation,
            RotationError::Persistence { orphaned_key_id } => RotationErrorView::Persistence {
                orphaned_key_id: orphaned_key_id@,
            },
            RotationError::UnexpectedEvent => RotationErrorView::UnexpectedEvent,
        }
    }
}

impl Clone for RotationError {
    fn clone(&self) -> (res: Self)
        ensures
            res@ == self@,
    {
        match self {
            RotationError::Config(error) => RotationError::Config(error.clone()),
            RotationError::InvalidCode(error) => RotationError::InvalidCode(*error),
            RotationError::Auth(error) => RotationError::Auth(*error),
            RotationError::Creation => RotationError::Creation,
            RotationError::Persistence { orphaned_key_id } => RotationError::Persistence {
                orphaned_key_id: orphaned_key_id.clone(),
            },
            RotationError::UnexpectedEvent => RotationError::UnexpectedEvent,
        }
    }
}

/// The outcome of an action, as the driver reports it.
#[derive(Debug)]
pub enum Event {
    /// The contents of the credentials file and of the configuration file;
    /// `None` for one that could not be read.
    StoreRead { credentials: Option<Vec<u8>>, config: Option<Vec<u8>> },
    /// The operator's answer to the prompt.
    CodeEntered { answer: String },
    /// Whether the session is open.
    SessionOpened { outcome: Result<(), AuthError> },
    /// The service's answer to the listing, or `None` where it gave none.
    KeysListed { listing: Option<AccessKeyListing> },
    /// Whether the key was deleted.
    KeyDeleted { deleted: bool },
    /// The new key, or `None` where none could be created.
    KeyCreated { key: Option<AccessKey> },
    /// Whether the credentials file was replaced.
    StoreWritten { written: bool },
    /// Whether the old key was disabled.
    KeyDisabled { disabled: bool },
}

/// An `Event`, with the views of what it carries.
pub enum EventView {
    StoreRead { credentials: Option<Seq<u8>>, config: Option<Seq<u8>> },
    CodeEntered { answer: Seq<char> },
    SessionOpened { outcome: Result<(), AuthError> },
    KeysListed { listing: Option<AccessKeyListingView> },
    KeyDeleted { deleted: bool },
    KeyCreated { key: Option<AccessKeyView> },
    StoreWritten { written: bool },
    KeyDisabled { disabled: bool },
}

/// The bytes of an optional vector.
pub open spec fn contents_of(file: Option<Vec<u8>>) -> Option<Seq<u8>> {
    match file {
        Some(bytes) => Some(bytes@),
        None => None,
    }
}

impl View for Event {
    type V = EventView;

    open spec fn view(&self) -> EventView {
        match self {
            Event::StoreRead { credentials, config } => EventView::StoreRead {
                credentials: contents_of(*credentials),
                config: contents_of(*config),
            },
            Event::CodeEntered { answer } => EventView::CodeEntered { answer: answer@ },
            Event::SessionOpened { outcome } => EventView::SessionOpened { outcome: *outcome },
            Event::KeysListed { listing } => EventView::KeysListed {
                listing: match listing {
                    Some(page) => Some(page@),
                    None => None,
                },
            },
            Event::KeyDeleted { deleted } => EventView::KeyDeleted { deleted: *deleted },
            Event::KeyCreated { key } => EventView::KeyCreated {
                key: match key {
                    Some(key) => Some(key@),
                    None => None,
                },
            },
            Event::StoreWritten { written } => EventView::StoreWritten { written: *written },
            Event::KeyDisabled { disabled } => EventView::KeyDisabled { disabled: *disabled },
        }
    }
}

/// What the driver is to do next.
#[derive(Debug)]
pub enum Action {
    /// Show the prompt and read the operator's answer.
    AskCode { prompt: String },
    /// Open a session with the request.
    OpenSession { request: StsSessionRequest },
    /// List the identity's keys, from the start or from where the last
    /// answer left off.
    ListKeys { user_name: String, marker: Option<String> },
    /// Delete one of the identity's keys.
    DeleteKey { access_key_id: String, user_name: String },
    /// Create a key for the identity.
    CreateKey { user_name: String },
    /// Replace the credentials file by these contents, all of them or none.
    WriteStore { contents: Vec<u8> },
    /// Set the status of one of the identity's keys.
    UpdateKey { access_key_id: String, status: String, user_name: String },
    /// Nothing: the run is complete, with these warnings.
    Finish { warnings: Vec<Warning> },
    /// Nothing: the run was given up for this reason.
    Abort { error: RotationError },
}

/// An `Action`, with the views of what it carries.
pub enum ActionView {
    AskCode { prompt: Seq<char> },
    OpenSession { request: StsSessionRequestView },
    ListKeys { user_name: Seq<char>, marker: Option<Seq<char>> },
    DeleteKey { access_key_id: Seq<char>, user_name: Seq<char> },
    CreateKey { user_name: Seq<char> },
    WriteStore { contents: Seq<u8> },
    UpdateKey { access_key_id: Seq<char>, status: Seq<char>, user_name: Seq<char> },
    Finish { warnings: Seq<WarningView> },
    Abort { error: RotationErrorView },
}

/// The views of a list of warnings, in the list's order.
pub open spec fn warnings_of(warnings: Seq<Warning>) -> Seq<WarningView> {
    warnings.map_values(|warning: Warning| warning@)
}

/// The views of a list of strings, in the list's order.
pub open spec fn texts_of(texts: Seq<String>) -> Seq<Seq<char>> {
    texts.map_values(|text: String| text@)
}

impl View for Action {
    type V = ActionView;

    open spec fn view(&self) -> ActionView {
        match self {
            Action::AskCode { prompt } => ActionView::AskCode { prompt: prompt@ },
            Action::OpenSession { request } => ActionView::OpenSession { request: request@ },
            Action::ListKeys { user_name, marker } => ActionView::ListKeys {
                user_name: user_name@,
                marker: text_of(*marker),
            },
            Action::DeleteKey { access_key_id, user_name } => ActionView::DeleteKey {
                access_key_id: access_key_id@,
                user_name: user_name@,
            },
            Action::CreateKey { user_name } => ActionView::CreateKey { user_name: user_name@ },
            Action::WriteStore { contents } => ActionView::WriteStore { contents: contents@ },
            Action::UpdateKey { access_key_id, status, user_name } => ActionView::UpdateKey {
                access_key_id: access_key_id@,
                status: status@,
                user_name: user_name@,
            },
            Action::Finish { warnings } => ActionView::Finish { warnings: warnings_of(warnings@) },
            Action::Abort { error } => ActionView::Abort { error: error@ },
        }
    }
}

/// A listed key that is out of use and can be named in a deletion.
pub open spec fn is_inactive(key: AccessKeyMetadataView) -> bool {
    key.status == Some(inactive()) && key.access_key_id is Some
}

/// The identifiers of the inactive keys of a listing, in the listing's
/// order.
pub open spec fn inactive_ids(keys: Seq<AccessKeyMetadataView>) -> Seq<Seq<char>> {
    keys.filter(|key: AccessKeyMetadataView| is_inactive(key)).map_values(
        |key: AccessKeyMetadataView| key.access_key_id->Some_0,
    )
}

/// A run, as far as it has come.
pub struct RotatorView {
    pub phase: Phase,
    /// The store, once it is loaded.
    pub store: Option<StoreView>,
    /// The key that the store held when it was loaded.
    pub old_key: Option<AccessKeyView>,
    /// The keys listed so far.
    pub listed: Seq<AccessKeyMetadataView>,
    /// The identifiers of the listed keys that are to be deleted.
    pub doomed: Seq<Seq<char>>,
    /// How many of them have been dealt with.
    pub cursor: nat,
    /// The new key, once it is created.
    pub created: Option<AccessKeyView>,
    pub warnings: Seq<WarningView>,
    /// Why the run was given up, once it was.
    pub failure: Option<RotationErrorView>,
}

impl RotatorView {
    /// A run before its first step.
    pub open spec fn initial() -> RotatorView {
        RotatorView {
            phase: Phase::Init,
            store: None,
            old_key: None,
            listed: Seq::empty(),
            doomed: Seq::empty(),
            cursor: 0,
            created: None,
            warnings: Seq::empty(),
            failure: None,
        }
    }

    /// The run holds what its phase needs.
    pub open spec fn well_formed(self) -> bool {
        &&& self.phase != Phase::Init && self.phase != Phase::Failed && self.phase != Phase::Done
            ==> (self.store matches Some(store) && store.well_formed()) && self.old_key is Some
        &&& self.phase == Phase::Enumerated ==> self.cursor < self.doomed.len()
        &&& self.phase == Phase::Created ==> self.created is Some
        &&& self.phase == Phase::Failed ==> self.failure is Some
    }

    /// The run, given up for `error`.
    pub open spec fn fail(self, error: RotationErrorView) -> (RotatorView, ActionView) {
        (
            RotatorView { phase: Phase::Failed, failure: Some(error), ..self },
            ActionView::Abort { error },
        )
    }

    /// The next deletion where one is left, the creation of the new key
    /// where none is.
    pub open spec fn prune(self) -> (RotatorView, ActionView) {
        if self.cursor < self.doomed.len() {
            (
                RotatorView { phase: Phase::Enumerated, ..self },
                ActionView::DeleteKey {
                    access_key_id: self.doomed[self.cursor as int],
                    user_name: self.store->Some_0.username,
                },
            )
        } else {
            (
                RotatorView { phase: Phase::Pruned, ..self },
                ActionView::CreateKey { user_name: self.store->Some_0.username },
            )
        }
    }

    /// Init: the store's files were read. The store is loaded and the key
    /// that it holds is captured as the old key.
    pub open spec fn on_store_read(self, credentials: Option<Seq<u8>>, config: Option<Seq<u8>>) -> (
        RotatorView,
        ActionView,
    ) {
        match loaded(credentials, config) {
            Ok(store) => (
                RotatorView {
                    phase: Phase::Loaded,
                    store: Some(store),
                    old_key: Some(store.active_key()),
                    ..self
                },
                ActionView::AskCode { prompt: title_cased(code_prompt()) + ": "@ },
            ),
            Err(error) => self.fail(RotationErrorView::Config(error)),
        }
    }

    /// Loaded: the operator answered. A valid answer goes into the request
    /// for a session as it was validated: the six digits.
    pub open spec fn on_code_entered(self, answer: Seq<char>) -> (RotatorView, ActionView) {
        match answer_value(answer) {
            Ok(_) => (
                RotatorView { phase: Phase::Authenticating, ..self },
                ActionView::OpenSession {
                    request: session_request(
                        self.store->Some_0.profile,
                        self.store->Some_0.mfa_arn,
                        trim_end(answer),
                    ),
                },
            ),
            Err(error) => self.fail(RotationErrorView::InvalidCode(error)),
        }
    }

    /// Authenticating: the session was opened or refused.
    pub open spec fn on_session_opened(self, outcome: Result<(), AuthError>) -> (
        RotatorView,
        ActionView,
    ) {
        match outcome {
            Ok(_) => (
                RotatorView { phase: Phase::Authenticated, ..self },
                ActionView::ListKeys { user_name: self.store->Some_0.username, marker: None },
            ),
            Err(error) => self.fail(RotationErrorView::Auth(error)),
        }
    }

    /// The listing could not be had in full: it counts as empty, and the
    /// failure is kept as a warning.
    pub open spec fn listing_failed(self) -> (RotatorView, ActionView) {
        RotatorView {
            listed: Seq::empty(),
            doomed: Seq::empty(),
            cursor: 0,
            warnings: self.warnings.push(WarningView::Enumeration),
            ..self
        }.prune()
    }

    /// Authenticated: the service answered the listing, or did not. The
    /// keys of the answer are added to those listed so far. Where the answer
    /// says that more follow, the rest is asked for from the answer's
    /// marker; where it says so and gives no marker, or where there is no
    /// answer, the listing has failed. Otherwise the listing is complete
    /// and its inactive keys are to be deleted.
    pub open spec fn on_keys_listed(self, listing: Option<AccessKeyListingView>) -> (
        RotatorView,
        ActionView,
    ) {
        match listing {
            Some(page) => {
                let listed = self.listed + page.access_key_metadata;
                if page.is_truncated == Some(true) {
                    match page.marker {
                        Some(marker) => (
                            RotatorView { listed, ..self },
                            ActionView::ListKeys {
                                user_name: self.store->Some_0.username,
                                marker: Some(marker),
                            },
                        ),
                        None => self.listing_failed(),
                    }
                } else {
                    RotatorView { listed, doomed: inactive_ids(listed), cursor: 0, ..self }.prune()
                }
            },
            None => self.listing_failed(),
        }
    }

    /// Enumerated: a deletion went through or did not; either way the
    /// next one is due.
    pub open spec fn on_key_deleted(self, deleted: bool) -> (RotatorView, ActionView) {
        RotatorView {
            cursor: self.cursor + 1,
            warnings: if deleted {
                self.warnings
            } else {
                self.warnings.push(
                    WarningView::Deletion { access_key_id: self.doomed[self.cursor as int] },
                )
            },
            ..self
        }.prune()
    }

    /// Pruned: the new key was created or was not. A new key goes into the
    /// store, which is written out as `rendered`.
    pub open spec fn on_key_created(self, key: Option<AccessKeyView>, rendered: Option<Seq<u8>>) -> (
        RotatorView,
        ActionView,
    ) {
        match key {
            Some(key) => {
                let holding = RotatorView {
                    store: Some(self.store->Some_0.with_key(key)),
                    created: Some(key),
                    ..self
                };
                match rendered {
                    Some(contents) => (
                        RotatorView { phase: Phase::Created, ..holding },
                        ActionView::WriteStore { contents },
                    ),
                    None => holding.fail(
                        RotationErrorView::Persistence { orphaned_key_id: key.access_key_id },
                    ),
                }
            },
            None => self.fail(RotationErrorView::Creation),
        }
    }

    /// Created: the credentials file was replaced or was not.
    pub open spec fn on_store_written(self, written: bool) -> (RotatorView, ActionView) {
        if written {
            (
                RotatorView { phase: Phase::Persisted, ..self },
                ActionView::UpdateKey {
                    access_key_id: self.old_key->Some_0.access_key_id,
                    status: inactive(),
                    user_name: self.store->Some_0.username,
                },
            )
        } else {
            self.fail(
                RotationErrorView::Persistence {
                    orphaned_key_id: self.created->Some_0.access_key_id,
                },
            )
        }
    }

    /// Persisted: the old key was disabled or was not; either way the run
    /// is complete.
    pub open spec fn on_key_disabled(self, disabled: bool) -> (RotatorView, ActionView) {
        let warnings = if disabled {
            self.warnings
        } else {
            self.warnings.push(
                WarningView::Deactivation { access_key_id: self.old_key->Some_0.access_key_id },
            )
        };
        (RotatorView { phase: Phase::Done, warnings, ..self }, ActionView::Finish { warnings })
    }

    /// The run after `event`, and the action that the driver is to carry
    /// out next. `rendered` is what the store is written out as once it
    /// holds the new key, and matters for the event that brings that key
    /// only. An event that is not the outcome of the last action ends the
    /// run; a run that has ended stays as it is.
    pub open spec fn step(self, event: EventView, rendered: Option<Seq<u8>>) -> (
        RotatorView,
        ActionView,
    ) {
        match (self.phase, event) {
            (Phase::Init, EventView::StoreRead { credentials, config }) => self.on_store_read(
                credentials,
                config,
            ),
            (Phase::Loaded, EventView::CodeEntered { answer }) => self.on_code_entered(answer),
            (Phase::Authenticating, EventView::SessionOpened { outcome }) => self.on_session_opened(
                outcome,
            ),
            (Phase::Authenticated, EventView::KeysListed { listing }) => self.on_keys_listed(
                listing,
            ),
            (Phase::Enumerated, EventView::KeyDeleted { deleted }) => self.on_key_deleted(deleted),
            (Phase::Pruned, EventView::KeyCreated { key }) => self.on_key_created(key, rendered),
            (Phase::Created, EventView::StoreWritten { written }) => self.on_store_written(written),
            (Phase::Persisted, EventView::KeyDisabled { disabled }) => self.on_key_disabled(
                disabled,
            ),
            (Phase::Done, _) => (self, ActionView::Finish { warnings: self.warnings }),
            (Phase::Failed, _) => (self, ActionView::Abort { error: self.failure->Some_0 }),
            _ => self.fail(RotationErrorView::UnexpectedEvent),
        }
    }
}

/// Adding a key to a listing adds its identifier to the inactive ones if
/// it is inactive, and nothing if it is not.
proof fn lemma_inactive_ids_push(keys: Seq<AccessKeyMetadataView>, key: AccessKeyMetadataView)
    ensures
        inactive_ids(keys.push(key)) == if is_inactive(key) {
            inactive_ids(keys).push(key.access_key_id->Some_0)
        } else {
            inactive_ids(keys)
        },
{
    let pred = |key: AccessKeyMetadataView| is_inactive(key);
    reveal(Seq::filter);
    assert(keys.push(key).drop_last() == keys);
    assert(keys.push(key).filter(pred) == if is_inactive(key) {
        keys.filter(pred).push(key)
    } else {
        keys.filter(pred)
    });
    if is_inactive(key) {
        assert(inactive_ids(keys.push(key)) =~= inactive_ids(keys).push(key.access_key_id->Some_0));
    }
}

/// The identifiers of the keys of a listing that are to be deleted: those
/// whose status is `Inactive`, in the listing's order. An entry without a
/// status or without an identifier is passed over.
pub fn inactive_key_ids(keys: &Vec<AccessKeyMetadata>) -> (ids: Vec<String>)
    ensures
        texts_of(ids@) == inactive_ids(listing_of(keys@)),
{
    let out_of_use = String::from_str("Inactive");
    let mut ids: Vec<String> = Vec::new();
    let mut i: usize = 0;
    proof {
        reveal(Seq::filter);
        assert(listing_of(keys@).subrange(0, 0) =~= Seq::empty());
        assert(texts_of(ids@) =~= inactive_ids(Seq::empty()));
    }
    while i < keys.len()
        invariant
            i <= keys.len(),
            out_of_use@ == inactive(),
            texts_of(ids@) == inactive_ids(listing_of(keys@).subrange(0, i as int)),
        decreases keys.len() - i,
    {
        let key = &keys[i];
        let ghost before = ids@;
        proof {
            let seen = listing_of(keys@).subrange(0, i as int);
            assert(listing_of(keys@).subrange(0, i + 1) =~= seen.push(key@));
            lemma_inactive_ids_push(seen, key@);
        }
        match (&key.status, &key.access_key_id) {
            (Some(status), Some(access_key_id)) => {
                if *status == out_of_use {
                    ids.push(access_key_id.clone());
                    assert(texts_of(ids@) =~= texts_of(before).push(access_key_id@));
                }
            },
            _ => {},
        }
        i = i + 1;
    }
    assert(listing_of(keys@).subrange(0, keys@.len() as int) =~= listing_of(keys@));
    ids
}

/// A copy of a list of warnings.
fn copy_warnings(warnings: &Vec<Warning>) -> (res: Vec<Warning>)
    ensures
        warnings_of(res@) == warnings_of(warnings@),
{
    let mut res: Vec<Warning> = Vec::new();
    let mut i: usize = 0;
    while i < warnings.len()
        invariant
            i <= warnings.len(),
            warnings_of(res@) == warnings_of(warnings@).subrange(0, i as int),
        decreases warnings.len() - i,
    {
        let ghost before = res@;
        res.push(warnings[i].clone());
        assert(warnings_of(res@) =~= warnings_of(before).push(warnings@[i as int]@));
        i = i + 1;
    }
    assert(warnings_of(warnings@).subrange(0, warnings@.len() as int) =~= warnings_of(warnings@));
    res
}

/// One run of the rotation.
#[derive(Debug)]
pub struct AwsKeyRotator {
    phase: Phase,
    config_manager: Option<AwsConfigurationManager>,
    old_key: Option<AccessKey>,
    listed: Vec<AccessKeyMetadata>,
    doomed: Vec<String>,
    cursor: usize,
    created: Option<AccessKey>,
    warnings: Vec<Warning>,
    failure: Option<RotationError>,
}

impl View for AwsKeyRotator {
    type V = RotatorView;

    closed spec fn view(&self) -> RotatorView {
        RotatorView {
            phase: self.phase,
            store: match self.config_manager {
                Some(store) => Some(store@),
                None => None,
            },
            old_key: match self.old_key {
                Some(key) => Some(key@),
                None => None,
            },
            listed: listing_of(self.listed@),
            doomed: texts_of(self.doomed@),
            cursor: self.cursor as nat,
            created: match self.created {
                Some(key) => Some(key@),
                None => None,
            },
            warnings: warnings_of(self.warnings@),
            failure: match self.failure {
                Some(error) => Some(error@),
                None => None,
            },
        }
    }
}

impl AwsKeyRotator {
    /// The run holds what its phase needs.
    pub open spec fn well_formed(&self) -> bool {
        self@.well_formed()
    }

    /// What the store that the run holds is written out as; `None` where
    /// the run holds no store or writing it out fails.
    pub closed spec fn rendered(&self) -> Option<Seq<u8>> {
        match self.config_manager {
            Some(store) => store.written(),
            None => None,
        }
    }

    /// A run before its first step: it waits for the contents of the
    /// store's two files.
    pub fn new() -> (rotator: Self)
        ensures
            rotator@ == RotatorView::initial(),
            rotator.well_formed(),
    {
        let rotator = AwsKeyRotator {
            phase: Phase::Init,
            config_manager: None,
            old_key: None,
            listed: Vec::new(),
            doomed: Vec::new(),
            cursor: 0,
            created: None,
            warnings: Vec::new(),
            failure: None,
        };
        assert(rotator@.listed =~= Seq::empty());
        assert(rotator@.doomed =~= Seq::empty());
        assert(rotator@.warnings =~= Seq::empty());
        rotator
    }

    /// How far the run has come.
    pub fn phase(&self) -> (phase: Phase)
        ensures
            phase == self@.phase,
    {
        self.phase
    }

    /// The store, once it is loaded.
    pub fn config_manager(&self) -> (store: Option<&AwsConfigurationManager>)
        ensures
            match store {
                Some(store) => self@.store == Some(store@) && self.rendered() == store.written(),
                None => self@.store is None && self.rendered() is None,
            },
    {
        self.config_manager.as_ref()
    }

    /// The key that the store held when it was loaded.
    pub fn old_key(&self) -> (key: Option<&AccessKey>)
        ensures
            match key {
                Some(key) => self@.old_key == Some(key@),
                None => self@.old_key is None,
            },
    {
        self.old_key.as_ref()
    }

    /// The new key, once it is created.
    pub fn created_key(&self) -> (key: Option<&AccessKey>)
        ensures
            match key {
                Some(key) => self@.created == Some(key@),
                None => self@.created is None,
            },
    {
        self.created.as_ref()
    }

    /// What went wrong so far without ending the run.
    pub fn warnings(&self) -> (warnings: &Vec<Warning>)
        ensures
            warnings_of(warnings@) == self@.warnings,
    {
        &self.warnings
    }

    /// The identity that owns the keys.
    fn user_name(&self) -> (name: String)
        requires
            self.config_manager is Some,
        ensures
            name@ == self@.store->Some_0.username,
    {
        self.config_manager.as_ref().unwrap().aws_username().clone()
    }

    /// Gives the run up.
    fn fail(&mut self, error: RotationError) -> (action: Action)
        ensures
            (final(self)@, action@) == old(self)@.fail(error@),
            final(self).rendered() == old(self).rendered(),
    {
        self.failure = Some(error.clone());
        self.phase = Phase::Failed;
        Action::Abort { error }
    }

    /// Asks for the next deletion, or for the new key where no deletion is
    /// left.
    fn prune(&mut self) -> (action: Action)
        requires
            old(self).config_manager is Some,
        ensures
            (final(self)@, action@) == old(self)@.prune(),
    {
        let user_name = self.user_name();
        if self.cursor < self.doomed.len() {
            self.phase = Phase::Enumerated;
            Action::DeleteKey { access_key_id: self.doomed[self.cursor].clone(), user_name }
        } else {
            self.phase = Phase::Pruned;
            Action::CreateKey { user_name }
        }
    }

    fn on_store_read(&mut self, credentials: Option<Vec<u8>>, config: Option<Vec<u8>>) -> (action:
        Action)
        ensures
            (final(self)@, action@) == old(self)@.on_store_read(
                contents_of(credentials),
                contents_of(config),
            ),
            old(self)@.phase == Phase::Init ==> final(self).well_formed(),
    {
        let credentials_bytes: Option<&[u8]> = match &credentials {
            Some(bytes) => Some(bytes.as_slice()),
            None => None,
        };
        let config_bytes: Option<&[u8]> = match &config {
            Some(bytes) => Some(bytes.as_slice()),
            None => None,
        };
        match AwsConfigurationManager::new(credentials_bytes, config_bytes) {
            Ok(store) => {
                proof {
                    reveal_strlit("enter your mfa");
                    let text = "enter your mfa"@;
                    assert(vstd::utf8::is_ascii_chars(text));
                    vstd::utf8::is_ascii_chars_encode_utf8(text);
                }
                self.old_key = Some(store.read_credentials_info());
                self.config_manager = Some(store);
                self.phase = Phase::Loaded;
                Action::AskCode { prompt: prompt_label("enter your mfa") }
            },
            Err(error) => self.fail(RotationError::Config(error)),
        }
    }

    fn on_code_entered(&mut self, answer: String) -> (action: Action)
        requires
            old(self).config_manager is Some,
        ensures
            (final(self)@, action@) == old(self)@.on_code_entered(answer@),
    {
        let store = self.config_manager.as_ref().unwrap();
        let request = CredentialsProviderFactory::get_sts_credentials_provider(
            store.aws_profile().as_str(),
            store.aws_mfa_arn().as_str(),
            trim_answer(answer.as_str()),
        );
        match check_answer(answer) {
            Ok(_) => {
                self.phase = Phase::Authenticating;
                Action::OpenSession { request }
            },
            Err(error) => self.fail(RotationError::InvalidCode(error)),
        }
    }

    fn on_session_opened(&mut self, outcome: Result<(), AuthError>) -> (action: Action)
        requires
            old(self).config_manager is Some,
        ensures
            (final(self)@, action@) == old(self)@.on_session_opened(outcome),
    {
        match outcome {
            Ok(_) => {
                let user_name = self.user_name();
                self.phase = Phase::Authenticated;
                Action::ListKeys { user_name, marker: None }
            },
            Err(error) => self.fail(RotationError::Auth(error)),
        }
    }

    /// Gives the listing up.
    fn listing_failed(&mut self) -> (action: Action)
        requires
            old(self).config_manager is Some,
        ensures
            (final(self)@, action@) == old(self)@.listing_failed(),
    {
        let ghost before = self.warnings@;
        self.listed = Vec::new();
        self.doomed = Vec::new();
        self.cursor = 0;
        self.warnings.push(Warning::Enumeration);
        assert(warnings_of(self.warnings@) =~= warnings_of(before).push(WarningView::Enumeration));
        assert(listing_of(self.listed@) =~= Seq::empty());
        assert(texts_of(self.doomed@) =~= Seq::empty());
        self.prune()
    }

    fn on_keys_listed(&mut self, listing: Option<AccessKeyListing>) -> (action: Action)
        requires
            old(self).config_manager is Some,
        ensures
            (final(self)@, action@) == old(self)@.on_keys_listed(
                match listing {
                    Some(page) => Some(page@),
                    None => None,
                },
            ),
    {
        match listing {
            Some(page) => {
                let ghost before = self.listed@;
                let AccessKeyListing { access_key_metadata, is_truncated, marker } = page;
                let mut keys = access_key_metadata;
                self.listed.append(&mut keys);
                assert(listing_of(self.listed@) =~= listing_of(before) + listing_of(
                    access_key_metadata@,
                ));
                match (is_truncated, marker) {
                    (Some(true), Some(marker)) => Action::ListKeys {
                        user_name: self.user_name(),
                        marker: Some(marker),
                    },
                    (Some(true), None) => self.listing_failed(),
                    _ => {
                        self.doomed = inactive_key_ids(&self.listed);
                        self.cursor = 0;
                        self.prune()
                    },
                }
            },
            None => self.listing_failed(),
        }
    }

    fn on_key_deleted(&mut self, deleted: bool) -> (action: Action)
        requires
            old(self).config_manager is Some,
            old(self).cursor < old(self).doomed.len(),
        ensures
            (final(self)@, action@) == old(self)@.on_key_deleted(deleted),
    {
        if !deleted {
            let ghost before = self.warnings@;
            let access_key_id = self.doomed[self.cursor].clone();
            self.warnings.push(Warning::Deletion { access_key_id });
            assert(warnings_of(self.warnings@) =~= warnings_of(before).push(
                WarningView::Deletion { access_key_id: access_key_id@ },
            ));
        }
        self.cursor = self.cursor + 1;
        self.prune()
    }

    fn on_key_created(&mut self, key: Option<AccessKey>) -> (action: Action)
        requires
            old(self).config_manager matches Some(store) && store.well_formed(),
        ensures
            (final(self)@, action@) == old(self)@.on_key_created(
                match key {
                    Some(key) => Some(key@),
                    None => None,
                },
                final(self).rendered(),
            ),
            final(self).config_manager matches Some(store) && store.well_formed(),
    {
        match key {
            Some(key) => {
                let mut store = self.config_manager.take().unwrap();
                let outcome = store.write_credentials_info(&key);
                self.config_manager = Some(store);
                let orphaned_key_id = key.access_key_id.clone();
                self.created = Some(key);
                match outcome {
                    Ok(contents) => {
                        self.phase = Phase::Created;
                        Action::WriteStore { contents }
                    },
                    Err(_) => self.fail(RotationError::Persistence { orphaned_key_id }),
                }
            },
            None => self.fail(RotationError::Creation),
        }
    }

    fn on_store_written(&mut self, written: bool) -> (action: Action)
        requires
            old(self).config_manager is Some,
            old(self).old_key is Some,
            old(self).created is Some,
        ensures
            (final(self)@, action@) == old(self)@.on_store_written(written),
    {
        if written {
            let user_name = self.user_name();
            let access_key_id = self.old_key.as_ref().unwrap().access_key_id.clone();
            self.phase = Phase::Persisted;
            Action::UpdateKey { access_key_id, status: String::from_str("Inactive"), user_name }
        } else {
            let orphaned_key_id = self.created.as_ref().unwrap().access_key_id.clone();
            self.fail(RotationError::Persistence { orphaned_key_id })
        }
    }

    fn on_key_disabled(&mut self, disabled: bool) -> (action: Action)
        requires
            old(self).old_key is Some,
        ensures
            (final(self)@, action@) == old(self)@.on_key_disabled(disabled),
    {
        if !disabled {
            let ghost before = self.warnings@;
            let access_key_id = self.old_key.as_ref().unwrap().access_key_id.clone();
            self.warnings.push(Warning::Deactivation { access_key_id });
            assert(warnings_of(self.warnings@) =~= warnings_of(before).push(
                WarningView::Deactivation { access_key_id: access_key_id@ },
            ));
        }
        self.phase = Phase::Done;
        Action::Finish { warnings: copy_warnings(&self.warnings) }
    }

    /// Takes the outcome of the last action and says what to do next. The
    /// run moves as `step` says, where the store with the new key is
    /// written out as the `ini` crate writes it.
    pub fn process(&mut self, event: Event) -> (action: Action)
        requires
            old(self).well_formed(),
        ensures
            final(self).well_formed(),
            (final(self)@, action@) == old(self)@.step(event@, final(self).rendered()),
    {
        match (self.phase, event) {
            (Phase::Init, Event::StoreRead { credentials, config }) => self.on_store_read(
                credentials,
                config,
            ),
            (Phase::Loaded, Event::CodeEntered { answer }) => self.on_code_entered(answer),
            (Phase::Authenticating, Event::SessionOpened { outcome }) => self.on_session_opened(
                outcome,
            ),
            (Phase::Authenticated, Event::KeysListed { listing }) => self.on_keys_listed(listing),
            (Phase::Enumerated, Event::KeyDeleted { deleted }) => self.on_key_deleted(deleted),
            (Phase::Pruned, Event::KeyCreated { key }) => self.on_key_created(key),
            (Phase::Created, Event::StoreWritten { written }) => self.on_store_written(written),
            (Phase::Persisted, Event::KeyDisabled { disabled }) => self.on_key_disabled(disabled),
            (Phase::Done, _) => Action::Finish { warnings: copy_warnings(&self.warnings) },
            (Phase::Failed, _) => Action::Abort { error: self.failure.as_ref().unwrap().clone() },
            _ => self.fail(RotationError::UnexpectedEvent),
        }
    }
}

} // verus!
