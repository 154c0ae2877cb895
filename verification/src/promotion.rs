//! Making an installed artifact the default: the decisions of a promotion, step by step.
//! The caller touches the disk; after each step it says what happened and is told what
//! to do next.

use crate::defaults::{DefaultVersionView, DefaultVersions};
use crate::paths::{default_bin_path, default_bin_path_of, install_path, install_path_of};
use crate::platform::Platform;
use vstd::prelude::*;

verus! {

/// The installed artifact that is to become the default.
#[derive(Debug)]
pub struct PromotionTarget {
    pub binary_name: String,
    pub network_release: String,
    pub version: String,
    pub debug: bool,
}

/// Why a promotion failed.
#[derive(Debug)]
pub enum PromotionError {
    /// No artifact lies at the path that the target resolves to.
    SourceNotFound(String),
    /// The file system refused a step: the path that the step was about, where it was
    /// about one, and what the file system reported.
    Io { path: Option<String>, reason: String },
    /// The caller reported what the step it was asked for cannot come to.
    UnexpectedEvent,
}

impl PromotionError {
    /// What to tell the user.
    pub fn message(&self) -> (r: String)
        ensures
            r@ == match *self {
                PromotionError::SourceNotFound(path) => "Binary not found at "@ + path@
                    + ". Use `suiup show` to see installed binaries."@,
                PromotionError::Io { path: Some(path), reason } => path@ + ": "@ + reason@,
                PromotionError::Io { path: None, reason } => reason@,
                PromotionError::UnexpectedEvent => "The promotion was carried out of order"@,
            },
    {
        match self {
            PromotionError::SourceNotFound(path) => {
                let mut r = crate::text::concat("Binary not found at ", path.as_str());
                r.append(". Use `suiup show` to see installed binaries.");
                r
            },
            PromotionError::Io { path: Some(path), reason } => {
                let mut r = crate::text::concat(path.as_str(), ": ");
                r.append(reason.as_str());
                r
            },
            PromotionError::Io { path: None, reason } => reason.clone(),
            PromotionError::UnexpectedEvent => String::from_str(
                "The promotion was carried out of order",
            ),
        }
    }
}

/// How far a promotion has come.
#[derive(Debug)]
pub enum PromotionState {
    /// The paths of the target are being worked out; `start` leaves this state behind.
    ResolvingTarget,
    VerifyingSource,
    CheckingDestination,
    RemovingPrevious,
    Copying,
    SettingPermissions,
    UpdatingDefaults,
    Done,
    Failed(PromotionError),
}

/// What the caller is to do next.
#[derive(Debug)]
pub enum PromotionAction {
    /// Report whether a file lies at the path.
    CheckExists(String),
    /// Delete the file at the path.
    Remove(String),
    /// Copy the bytes of one file to another path.
    Copy { from: String, to: String },
    /// Set the mode of the file at the path, replacing the bits it has.
    SetMode { path: String, mode: u32 },
    /// Write the store of defaults to its file.
    SaveDefaults,
    /// Tell the user that the promotion is done.
    Report(String),
    /// Stop: the promotion failed, the state says why.
    Abort,
}

/// What a step of the caller came to.
#[derive(Debug)]
pub enum PromotionEvent {
    /// A file lies at the path, or none does.
    Exists(bool),
    /// The step was carried out.
    Completed,
    /// The file system refused the step; the text is what it reported.
    Refused(String),
}

/// The mode of an executable: its owner may do all, all others may read and run it.
pub const EXECUTABLE_MODE: u32 = 0o755;

/// A promotion in progress.
#[derive(Debug)]
pub struct Promotion {
    pub target: PromotionTarget,
    /// Where the installed artifact lies.
    pub source: String,
    /// Where the default copy goes.
    pub destination: String,
    pub platform: Platform,
    pub state: PromotionState,
}

/// The path that the step of a state is about.
pub open spec fn path_of_step(state: PromotionState, source: String, destination: String) -> Option<
    String,
> {
    match state {
        PromotionState::VerifyingSource => Some(source),
        PromotionState::CheckingDestination => Some(destination),
        PromotionState::RemovingPrevious => Some(destination),
        PromotionState::Copying => Some(destination),
        PromotionState::SettingPermissions => Some(destination),
        _ => None,
    }
}

/// The state that follows `state` on `event`. The source is looked at before anything is
/// touched; an old default is deleted before the copy; the mode is set only where the
/// platform has modes; a step that the file system refuses ends the promotion.
pub open spec fn next_state(
    state: PromotionState,
    event: PromotionEvent,
    source: String,
    destination: String,
    platform: Platform,
) -> PromotionState {
    match (state, event) {
        (PromotionState::ResolvingTarget, _) => PromotionState::VerifyingSource,
        (PromotionState::VerifyingSource, PromotionEvent::Exists(true)) => PromotionState::CheckingDestination,
        (PromotionState::VerifyingSource, PromotionEvent::Exists(false)) => PromotionState::Failed(
            PromotionError::SourceNotFound(source),
        ),
        (PromotionState::CheckingDestination, PromotionEvent::Exists(true)) => PromotionState::RemovingPrevious,
        (PromotionState::CheckingDestination, PromotionEvent::Exists(false)) => PromotionState::Copying,
        (PromotionState::RemovingPrevious, PromotionEvent::Completed) => PromotionState::Copying,
        (PromotionState::Copying, PromotionEvent::Completed) => if platform == Platform::Unix {
            PromotionState::SettingPermissions
        } else {
            PromotionState::UpdatingDefaults
        },
        (PromotionState::SettingPermissions, PromotionEvent::Completed) => PromotionState::UpdatingDefaults,
        (PromotionState::UpdatingDefaults, PromotionEvent::Completed) => PromotionState::Done,
        (PromotionState::Done, _) => PromotionState::Done,
        (PromotionState::Failed(e), _) => PromotionState::Failed(e),
        (_, PromotionEvent::Refused(why)) => PromotionState::Failed(
            PromotionError::Io { path: path_of_step(state, source, destination), reason: why },
        ),
        (_, _) => PromotionState::Failed(PromotionError::UnexpectedEvent),
    }
}

/// The entry that a target becomes in the store of defaults.
pub open spec fn entry_of(target: PromotionTarget) -> DefaultVersionView {
    DefaultVersionView {
        network_release: target.network_release@,
        version: target.version@,
        debug: target.debug,
    }
}

/// The defaults after a step: the target is recorded when the copy is in place, whatever
/// was recorded for its binary before, and at no other time.
pub open spec fn next_defaults(
    defaults: Map<Seq<char>, DefaultVersionView>,
    state: PromotionState,
    next: PromotionState,
    target: PromotionTarget,
) -> Map<Seq<char>, DefaultVersionView> {
    if next is UpdatingDefaults && !(state is UpdatingDefaults) {
        defaults.insert(target.binary_name@, entry_of(target))
    } else {
        defaults
    }
}

/// The confirmation that a finished promotion gives the user.
pub open spec fn confirmation_of(target: PromotionTarget) -> Seq<char> {
    "["@ + target.network_release@ + "] "@ + target.binary_name@ + "-"@ + target.version@
        + " set as default"@
}

/// `action` is what is to be done in the state of `p`.
pub open spec fn is_action_of(action: PromotionAction, p: Promotion) -> bool {
    match p.state {
        PromotionState::ResolvingTarget => action matches PromotionAction::CheckExists(path) && path@
            == p.source@,
        PromotionState::VerifyingSource => action matches PromotionAction::CheckExists(path) && path@
            == p.source@,
        PromotionState::CheckingDestination => action matches PromotionAction::CheckExists(path)
            && path@ == p.destination@,
        PromotionState::RemovingPrevious => action matches PromotionAction::Remove(path) && path@
            == p.destination@,
        PromotionState::Copying => action matches PromotionAction::Copy { from, to } && from@
            == p.source@ && to@ == p.destination@,
        PromotionState::SettingPermissions => action matches PromotionAction::SetMode { path, mode }
            && path@ == p.destination@ && mode == EXECUTABLE_MODE,
        PromotionState::UpdatingDefaults => action is SaveDefaults,
        PromotionState::Done => action matches PromotionAction::Report(text) && text@
            == confirmation_of(p.target),
        PromotionState::Failed(_) => action is Abort,
    }
}

impl Promotion {
    /// The paths are those that the target resolves to.
    pub open spec fn resolved(&self, binaries_root: Seq<char>, default_bin_root: Seq<char>) -> bool {
        &&& self.source@ == install_path_of(
            binaries_root,
            self.target.binary_name@,
            self.target.network_release@,
            self.target.version@,
            self.target.debug,
            self.platform,
        )
        &&& self.destination@ == default_bin_path_of(
            default_bin_root,
            self.target.binary_name@,
            self.target.debug,
            self.platform,
        )
    }

    /// Begins a promotion: resolves where the artifact lies and where its default copy
    /// goes, and asks whether the artifact is there.
    pub fn start(
        target: PromotionTarget,
        binaries_root: &str,
        default_bin_root: &str,
        platform: Platform,
    ) -> (r: (Promotion, PromotionAction))
        ensures
            r.0.target == target,
            r.0.platform == platform,
            r.0.resolved(binaries_root@, default_bin_root@),
            r.0.state is VerifyingSource,
            is_action_of(r.1, r.0),
    {
        let source = install_path(
            binaries_root,
            target.binary_name.as_str(),
            target.network_release.as_str(),
            target.version.as_str(),
            target.debug,
            platform,
        );
        let destination = default_bin_path(
            default_bin_root,
            target.binary_name.as_str(),
            target.debug,
            platform,
        );
        let action = PromotionAction::CheckExists(source.clone());
        (
            Promotion { target, source, destination, platform, state: PromotionState::VerifyingSource },
            action,
        )
    }

    /// What is to be done in the present state.
    pub fn action(&self) -> (r: PromotionAction)
        ensures
            is_action_of(r, *self),
    {
        match &self.state {
            PromotionState::ResolvingTarget => PromotionAction::CheckExists(self.source.clone()),
            PromotionState::VerifyingSource => PromotionAction::CheckExists(self.source.clone()),
            PromotionState::CheckingDestination => PromotionAction::CheckExists(
                self.destination.clone(),
            ),
            PromotionState::RemovingPrevious => PromotionAction::Remove(self.destination.clone()),
            PromotionState::Copying => PromotionAction::Copy {
                from: self.source.clone(),
                to: self.destination.clone(),
            },
            PromotionState::SettingPermissions => PromotionAction::SetMode {
                path: self.destination.clone(),
                mode: EXECUTABLE_MODE,
            },
            PromotionState::UpdatingDefaults => PromotionAction::SaveDefaults,
            PromotionState::Done => {
                let mut text = String::from_str("[");
                text.append(self.target.network_release.as_str());
                text.append("] ");
                text.append(self.target.binary_name.as_str());
                text.append("-");
                text.append(self.target.version.as_str());
                text.append(" set as default");
                PromotionAction::Report(text)
            },
            PromotionState::Failed(_) => PromotionAction::Abort,
        }
    }

    /// Takes what the last step came to, moves to the next state, records the target in
    /// the store of defaults once its copy is in place, and says what to do next.
    pub fn step(&mut self, event: PromotionEvent, defaults: &mut DefaultVersions) -> (r:
        PromotionAction)
        requires
            old(defaults).wf(),
        ensures
            final(self).target == old(self).target,
            final(self).source == old(self).source,
            final(self).destination == old(self).destination,
            final(self).platform == old(self).platform,
            final(self).state == next_state(
                old(self).state,
                event,
                old(self).source,
                old(self).destination,
                old(self).platform,
            ),
            final(defaults).wf(),
            final(defaults)@ == next_defaults(
                old(defaults)@,
                old(self).state,
                final(self).state,
                old(self).target,
            ),
            is_action_of(r, *final(self)),
    {
        let mut state = PromotionState::Done;
        std::mem::swap(&mut self.state, &mut state);
        let path = match &state {
            PromotionState::VerifyingSource => Some(self.source.clone()),
            PromotionState::CheckingDestination => Some(self.destination.clone()),
            PromotionState::RemovingPrevious => Some(self.destination.clone()),
            PromotionState::Copying => Some(self.destination.clone()),
            PromotionState::SettingPermissions => Some(self.destination.clone()),
            _ => None,
        };
        let next = match (state, event) {
            (PromotionState::ResolvingTarget, _) => PromotionState::VerifyingSource,
            (PromotionState::VerifyingSource, PromotionEvent::Exists(true)) => PromotionState::CheckingDestination,
            (PromotionState::VerifyingSource, PromotionEvent::Exists(false)) => PromotionState::Failed(
                PromotionError::SourceNotFound(self.source.clone()),
            ),
            (PromotionState::CheckingDestination, PromotionEvent::Exists(true)) => PromotionState::RemovingPrevious,
            (PromotionState::CheckingDestination, PromotionEvent::Exists(false)) => PromotionState::Copying,
            (PromotionState::RemovingPrevious, PromotionEvent::Completed) => PromotionState::Copying,
            (PromotionState::Copying, PromotionEvent::Completed) => {
                if self.platform.has_file_modes() {
                    PromotionState::SettingPermissions
                } else {
                    self.record(defaults);
                    PromotionState::UpdatingDefaults
                }
            },
            (PromotionState::SettingPermissions, PromotionEvent::Completed) => {
                self.record(defaults);
                PromotionState::UpdatingDefaults
            },
            (PromotionState::UpdatingDefaults, PromotionEvent::Completed) => PromotionState::Done,
            (PromotionState::Done, _) => PromotionState::Done,
            (PromotionState::Failed(e), _) => PromotionState::Failed(e),
            (_, PromotionEvent::Refused(why)) => PromotionState::Failed(
                PromotionError::Io { path, reason: why },
            ),
            (_, _) => PromotionState::Failed(PromotionError::UnexpectedEvent),
        };
        self.state = next;
        self.action()
    }

    /// Records the target in the store of defaults.
    fn record(&self, defaults: &mut DefaultVersions)
        requires
            old(defaults).wf(),
        ensures
            final(defaults).wf(),
            final(defaults)@ == old(defaults)@.insert(self.target.binary_name@, entry_of(self.target)),
    {
        defaults.set(
            self.target.binary_name.as_str(),
            self.target.network_release.as_str(),
            self.target.version.as_str(),
            self.target.debug,
        );
    }
}

/// The state after the given events, in turn.
pub open spec fn state_after(
    state: PromotionState,
    events: Seq<PromotionEvent>,
    source: String,
    destination: String,
    platform: Platform,
) -> PromotionState
    decreases events.len(),
{
    if events.len() == 0 {
        state
    } else {
        next_state(
            state_after(state, events.drop_last(), source, destination, platform),
            events.last(),
            source,
            destination,
            platform,
        )
    }
}

/// The defaults after the given events, in turn.
pub open spec fn defaults_after(
    defaults: Map<Seq<char>, DefaultVersionView>,
    state: PromotionState,
    events: Seq<PromotionEvent>,
    source: String,
    destination: String,
    platform: Platform,
    target: PromotionTarget,
) -> Map<Seq<char>, DefaultVersionView>
    decreases events.len(),
{
    if events.len() == 0 {
        defaults
    } else {
        next_defaults(
            defaults_after(defaults, state, events.drop_last(), source, destination, platform, target),
            state_after(state, events.drop_last(), source, destination, platform),
            state_after(state, events, source, destination, platform),
            target,
        )
    }
}

/// After a promotion that came to its end, the default of the target's binary is the
/// target: its network, its version and its build kind. It is so from the moment the
/// copy is in place.
pub proof fn lemma_promoted_is_default(
    defaults: Map<Seq<char>, DefaultVersionView>,
    events: Seq<PromotionEvent>,
    source: String,
    destination: String,
    platform: Platform,
    target: PromotionTarget,
)
    ensures
        ({
            let end = state_after(
                PromotionState::VerifyingSource,
                events,
                source,
                destination,
                platform,
            );
            let map = defaults_after(
                defaults,
                PromotionState::VerifyingSource,
                events,
                source,
                destination,
                platform,
                target,
            );
            (end is Done || end is UpdatingDefaults) ==> map.dom().contains(target.binary_name@)
                && map[target.binary_name@] == entry_of(target)
        }),
    decreases events.len(),
{
    if events.len() > 0 {
        lemma_promoted_is_default(defaults, events.drop_last(), source, destination, platform, target);
    }
}

/// Where no artifact lies at the source, the promotion fails at once and stays failed:
/// nothing is deleted, nothing copied, and the defaults stay as they were.
pub proof fn lemma_missing_source_changes_nothing(
    defaults: Map<Seq<char>, DefaultVersionView>,
    events: Seq<PromotionEvent>,
    source: String,
    destination: String,
    platform: Platform,
    target: PromotionTarget,
)
    requires
        events.len() > 0,
        events[0] == PromotionEvent::Exists(false),
    ensures
        state_after(PromotionState::VerifyingSource, events, source, destination, platform)
            == PromotionState::Failed(PromotionError::SourceNotFound(source)),
        defaults_after(
            defaults,
            PromotionState::VerifyingSource,
            events,
            source,
            destination,
            platform,
            target,
        ) == defaults,
    decreases events.len(),
{
    if events.len() > 1 {
        assert(events.drop_last()[0] == events[0]);
        lemma_missing_source_changes_nothing(
            defaults,
            events.drop_last(),
            source,
            destination,
            platform,
            target,
        );
    } else {
        reveal_with_fuel(state_after, 2);
        reveal_with_fuel(defaults_after, 2);
        assert(events.drop_last().len() == 0);
        assert(events.last() == events[0]);
    }
}

} // verus!
