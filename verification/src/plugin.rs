use vstd::prelude::*;
use crate::clsid::Clsid;
use crate::credentials::{
    PluginCredentialDetails, PluginCredentialDetailsRaw, details_fit, raw_matches,
};
use crate::error::{ErrorCause, ErrorKind, WinWebAuthnError, error_is};
use crate::wide::wide_string;

verus! {

/// A passkey plugin authenticator instance, identified by its CLSID.
pub struct WebAuthnPlugin {
    clsid: Clsid,
}

/// Where a credential sync stands.
#[derive(Clone, Copy, Debug, PartialEq, Eq, Structural)]
pub enum SyncStage {
    /// Waiting for the removal of the plugin's existing credentials.
    RemovingExisting,
    /// Waiting for the new credentials to be added.
    AddingNew,
    /// The sync is over.
    Finished,
}

/// What the caller performs next on behalf of a credential sync.
#[derive(Debug)]
pub enum SyncAction {
    /// Remove every credential of the plugin with this class identifier from
    /// the autofill list, then report `SyncEvent::RemoveAllCompleted`.
    RemoveAllCredentials(Clsid),
    /// Add these credentials to the autofill list of the plugin with this
    /// class identifier, then report `SyncEvent::AddCredentialsCompleted`.
    AddCredentials(Clsid, Vec<PluginCredentialDetailsRaw>),
    /// The sync is over, with this outcome.
    Finish(Result<(), WinWebAuthnError>),
}

/// What the caller reports back after performing an action.
#[derive(Debug)]
pub enum SyncEvent {
    /// The removal of existing credentials ended, with this outcome.
    RemoveAllCompleted(Result<(), WinWebAuthnError>),
    /// The addition of new credentials ended, with this outcome.
    AddCredentialsCompleted(Result<(), WinWebAuthnError>),
}

/// A credential sync in progress: the plugin it is for, the credentials to
/// publish and the stage reached.
#[derive(Debug)]
pub struct CredentialSync {
    clsid: Clsid,
    credentials: Vec<PluginCredentialDetails>,
    stage: SyncStage,
}

/// Every credential's identifiers fit the platform's 32-bit counts.
pub open spec fn all_details_fit(credentials: Seq<PluginCredentialDetails>) -> bool {
    forall|i: int| 0 <= i < credentials.len() ==> details_fit(#[trigger] credentials[i])
}

/// `raws` is the platform form of `credentials`, one for one and in order.
pub open spec fn raws_match(
    raws: Seq<PluginCredentialDetailsRaw>,
    credentials: Seq<PluginCredentialDetails>,
) -> bool {
    &&& raws.len() == credentials.len()
    &&& forall|i: int| 0 <= i < raws.len() ==> raw_matches(#[trigger] raws[i], credentials[i])
}

/// Steps left before a sync at this stage is over.
pub open spec fn stage_rank(stage: SyncStage) -> nat {
    match stage {
        SyncStage::RemovingExisting => 2,
        SyncStage::AddingNew => 1,
        SyncStage::Finished => 0,
    }
}

/// The error reported when the new credentials could not be added: the
/// existing ones are already gone.
pub open spec fn add_failure(e: WinWebAuthnError, cause: WinWebAuthnError) -> bool {
    error_is(
        e,
        ErrorKind::WindowsInternal,
        "Failed to add credentials to Windows autofill list. Credentials list is now empty"@,
        Some(ErrorCause::Nested(Box::new(cause))),
    )
}

/// What the autofill list holds of one credential: credential ID, relying
/// party ID, relying party name, user handle, user name and display name, in
/// the platform's form.
pub type AutofillEntry = (Seq<u8>, Seq<u16>, Option<Seq<u16>>, Seq<u8>, Seq<u16>, Seq<u16>);

/// The entry a platform-form credential makes in the autofill list.
pub open spec fn entry_of_raw(r: PluginCredentialDetailsRaw) -> AutofillEntry {
    (
        r.credential_id@,
        r.rp_id@,
        match r.rp_friendly_name {
            Some(n) => Some(n@),
            None => None,
        },
        r.user_id@,
        r.user_name@,
        r.user_display_name@,
    )
}

/// The entry a credential is to make in the autofill list.
pub open spec fn entry_of(d: PluginCredentialDetails) -> AutofillEntry {
    (
        d.credential_id@,
        wide_string(d.rp_id@),
        match d.rp_friendly_name {
            Some(n) => Some(wide_string(n@)),
            None => None,
        },
        d.user_id@,
        wide_string(d.user_name@),
        wide_string(d.user_display_name@),
    )
}

/// The entries of a list of credentials, in order.
pub open spec fn entries_of(credentials: Seq<PluginCredentialDetails>) -> Seq<AutofillEntry> {
    credentials.map_values(|d: PluginCredentialDetails| entry_of(d))
}

/// The plugin's autofill list once the platform has removed all its credentials.
pub open spec fn list_after_remove_all(list: Seq<AutofillEntry>) -> Seq<AutofillEntry> {
    Seq::empty()
}

/// The plugin's autofill list once the platform has added `raws` to it.
pub open spec fn list_after_add(
    list: Seq<AutofillEntry>,
    raws: Seq<PluginCredentialDetailsRaw>,
) -> Seq<AutofillEntry> {
    list + raws.map_values(|r: PluginCredentialDetailsRaw| entry_of_raw(r))
}

/// The plugin's autofill list after a successful sync of `credentials` that
/// added `raws`: the removal, then the addition when there is anything to add.
pub open spec fn list_after_sync(
    before: Seq<AutofillEntry>,
    credentials: Seq<PluginCredentialDetails>,
    raws: Seq<PluginCredentialDetailsRaw>,
) -> Seq<AutofillEntry> {
    if credentials.len() == 0 {
        list_after_remove_all(before)
    } else {
        list_after_add(list_after_remove_all(before), raws)
    }
}

/// The platform forms the sync hands over make exactly the entries of its
/// credentials, whatever the list held before: a successful sync leaves the
/// plugin's autofill list equal to the given credentials, in order.
pub proof fn lemma_sync_publishes_exactly(
    before: Seq<AutofillEntry>,
    credentials: Seq<PluginCredentialDetails>,
    raws: Seq<PluginCredentialDetailsRaw>,
)
    requires
        raws_match(raws, credentials),
    ensures
        raws.map_values(|r: PluginCredentialDetailsRaw| entry_of_raw(r)) == entries_of(credentials),
        list_after_sync(before, credentials, raws) == entries_of(credentials),
{
    let got = raws.map_values(|r: PluginCredentialDetailsRaw| entry_of_raw(r));
    assert forall|i: int| 0 <= i < raws.len() implies #[trigger] got[i] == entries_of(credentials)[i] by {
        assert(raw_matches(raws[i], credentials[i]));
        let r = raws[i];
        let d = credentials[i];
        assert(r.rp_friendly_name is Some <==> d.rp_friendly_name is Some);
    }
    assert(got =~= entries_of(credentials));
    assert(list_after_sync(before, credentials, raws) =~= entries_of(credentials));
}

/// Syncing a list of credentials a second time changes nothing: the second
/// successful sync leaves the autofill list as the first one left it.
pub proof fn lemma_sync_idempotent(
    before: Seq<AutofillEntry>,
    credentials: Seq<PluginCredentialDetails>,
    first: Seq<PluginCredentialDetailsRaw>,
    second: Seq<PluginCredentialDetailsRaw>,
)
    requires
        raws_match(first, credentials),
        raws_match(second, credentials),
    ensures
        list_after_sync(list_after_sync(before, credentials, first), credentials, second)
            == list_after_sync(before, credentials, first),
{
    lemma_sync_publishes_exactly(before, credentials, first);
    lemma_sync_publishes_exactly(list_after_sync(before, credentials, first), credentials, second);
}

impl WebAuthnPlugin {
    /// The plugin with the given class identifier.
    pub fn new(clsid: Clsid) -> (p: Self)
        ensures
            p.class_id() == clsid,
    {
        WebAuthnPlugin { clsid }
    }

    /// The plugin's class identifier.
    pub closed spec fn class_id(&self) -> Clsid {
        self.clsid
    }

    /// The plugin's class identifier.
    pub fn clsid(&self) -> (c: Clsid)
        ensures
            c == self.class_id(),
    {
        self.clsid
    }

    /// Starts synchronizing the Windows Hello credential cache to `credentials`:
    /// the existing credentials are removed, then the new ones added. The number
    /// of credentials must be less than `u32::MAX`; more are refused before
    /// anything is touched.
    pub fn sync_credentials(&self, credentials: Vec<PluginCredentialDetails>) -> (res: (
        CredentialSync,
        SyncAction,
    ))
        requires
            all_details_fit(credentials@),
        ensures
            res.0.pending() == credentials@,
            res.0.class_id() == self.class_id(),
            res.0.wf(),
            credentials@.len() >= u32::MAX ==> res.0.stage() == SyncStage::Finished && (
            res.1 matches SyncAction::Finish(Err(e)) && error_is(
                e,
                ErrorKind::InvalidArguments,
                "Too many credentials passed to sync"@,
                Some(ErrorCause::CountOverflow),
            )),
            credentials@.len() < u32::MAX ==> res.0.stage() == SyncStage::RemovingExisting
                && (res.1 matches SyncAction::RemoveAllCredentials(c) && c == self.class_id()),
    {
        if credentials.len() >= 0xFFFF_FFFF {
            let err = WinWebAuthnError::with_cause(
                ErrorKind::InvalidArguments,
                "Too many credentials passed to sync",
                ErrorCause::CountOverflow,
            );
            (
                CredentialSync { clsid: self.clsid, credentials, stage: SyncStage::Finished },
                SyncAction::Finish(Err(err)),
            )
        } else {
            (
                CredentialSync { clsid: self.clsid, credentials, stage: SyncStage::RemovingExisting },
                SyncAction::RemoveAllCredentials(self.clsid),
            )
        }
    }
}

impl CredentialSync {
    /// The class identifier of the plugin whose credentials are synced.
    pub closed spec fn class_id(&self) -> Clsid {
        self.clsid
    }

    /// The credentials being published.
    pub closed spec fn pending(&self) -> Seq<PluginCredentialDetails> {
        self.credentials@
    }

    /// The stage reached.
    pub closed spec fn stage(&self) -> SyncStage {
        self.stage
    }

    /// The sync's credentials fit the platform's fields.
    pub open spec fn wf(&self) -> bool {
        all_details_fit(self.pending())
    }

    /// The event answers the last action: a removal outcome while removing, an
    /// addition outcome while adding, and nothing once finished.
    pub open spec fn expects(&self, event: SyncEvent) -> bool {
        match event {
            SyncEvent::RemoveAllCompleted(_) => self.stage() == SyncStage::RemovingExisting,
            SyncEvent::AddCredentialsCompleted(_) => self.stage() == SyncStage::AddingNew,
        }
    }

    /// The stage reached.
    pub fn current_stage(&self) -> (s: SyncStage)
        ensures
            s == self.stage(),
    {
        self.stage
    }

    fn raw_credentials(&self) -> (raws: Vec<PluginCredentialDetailsRaw>)
        requires
            self.wf(),
        ensures
            raws_match(raws@, self.pending()),
    {
        let mut raws: Vec<PluginCredentialDetailsRaw> = Vec::new();
        let mut i: usize = 0;
        while i < self.credentials.len()
            invariant
                self.wf(),
                i <= self.pending().len(),
                raws@.len() == i,
                forall|j: int| 0 <= j < i ==> raw_matches(#[trigger] raws@[j], self.pending()[j]),
            decreases self.pending().len() - i,
        {
            assert(details_fit(self.pending()[i as int]));
            let raw = PluginCredentialDetailsRaw::from_details(&self.credentials[i]);
            raws.push(raw);
            i = i + 1;
        }
        raws
    }

    /// Advances the sync on the outcome of the last action and says what to do
    /// next. The outcome of the removal does not matter: the removal may fail on
    /// a first sync or an older Windows version, and the sync goes on. With no
    /// credentials to publish the sync then succeeds; otherwise all of them are
    /// added, in order. A failed addition fails the sync, the addition's error
    /// as its cause. Each step brings the sync closer to its end.
    pub fn on_event(&mut self, event: SyncEvent) -> (action: SyncAction)
        requires
            old(self).wf(),
            old(self).expects(event),
        ensures
            final(self).wf(),
            final(self).pending() == old(self).pending(),
            final(self).class_id() == old(self).class_id(),
            stage_rank(final(self).stage()) < stage_rank(old(self).stage()),
            event is RemoveAllCompleted && old(self).pending().len() == 0 ==> final(self).stage()
                == SyncStage::Finished && action matches SyncAction::Finish(Ok(_)),
            event is RemoveAllCompleted && old(self).pending().len() > 0 ==> final(self).stage()
                == SyncStage::AddingNew && (action matches SyncAction::AddCredentials(c, raws)
                && c == old(self).class_id() && raws_match(raws@, old(self).pending())),
            event matches SyncEvent::AddCredentialsCompleted(Ok(_)) ==> final(self).stage()
                == SyncStage::Finished && action matches SyncAction::Finish(Ok(_)),
            event matches SyncEvent::AddCredentialsCompleted(Err(cause)) ==> final(self).stage()
                == SyncStage::Finished && (action matches SyncAction::Finish(Err(e))
                && add_failure(e, cause)),
    {
        match event {
            SyncEvent::RemoveAllCompleted(_) => {
                if self.credentials.len() == 0 {
                    self.stage = SyncStage::Finished;
                    SyncAction::Finish(Ok(()))
                } else {
                    let raws = self.raw_credentials();
                    self.stage = SyncStage::AddingNew;
                    SyncAction::AddCredentials(self.clsid, raws)
                }
            },
            SyncEvent::AddCredentialsCompleted(outcome) => {
                self.stage = SyncStage::Finished;
                match outcome {
                    Ok(()) => SyncAction::Finish(Ok(())),
                    Err(cause) => SyncAction::Finish(
                        Err(
                            WinWebAuthnError::with_cause(
                                ErrorKind::WindowsInternal,
                                "Failed to add credentials to Windows autofill list. Credentials list is now empty",
                                ErrorCause::Nested(Box::new(cause)),
                            ),
                        ),
                    ),
                }
            },
        }
    }
}

} // verus!
