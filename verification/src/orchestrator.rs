//! The orchestrator: the paths, the preferred locale, the status line and the run
//! flag, and every decision that the presentation layer needs made.
//!
//! Each operation takes what the caller observed (what is on disk, what a dialog
//! returned, what the runner or the watcher reported) and says how the state
//! changes. Nothing here touches a file, a window or a process.

use vstd::prelude::*;
use vstd::string::*;
use crate::config::{rewrite_locales, spec_rewrite};
use crate::locale::{
    default_locale, default_locale_text, lemma_valid_locale_is_plain, normalization_notice,
    normalize_preferred, spec_is_valid_locale, spec_normalization, spec_normalization_notice,
    spec_normalize, Normalization,
};
use crate::sequence::{finished_text, is_finished_message, Target};
use crate::store::{
    lemma_update_round_trip, spec_error_text, view_outcome, ConfigError, FileProbe,
    FileProbeView, LocaleConfigStore, StoreModel,
};
use crate::text::{join, spec_eq_ignore_ascii_case, spec_join};
use crate::validate::{
    any_path_matches, is_file_with_ext, path_same, spec_any_path_matches, spec_follows_dot,
    spec_is_file_with_ext,
};

verus! {

/// The three paths that the user configures.
#[derive(Clone, Copy, Debug, PartialEq, Eq, Structural)]
pub enum PathSlot {
    /// The launcher's executable.
    Launcher,
    /// The configuration file.
    Config,
    /// The game's executable.
    Game,
}

/// The two paths that a run starts.
#[derive(Clone, Debug, PartialEq, Eq)]
pub struct LaunchPlan {
    /// The launcher's executable.
    pub launcher: String,
    /// The game's executable.
    pub game: String,
}

/// A [`LaunchPlan`] with its paths as sequences of characters.
pub struct LaunchPlanView {
    pub launcher: Seq<char>,
    pub game: Seq<char>,
}

impl View for LaunchPlan {
    type V = LaunchPlanView;

    open spec fn view(&self) -> LaunchPlanView {
        LaunchPlanView { launcher: self.launcher@, game: self.game@ }
    }
}

/// Why a run was not started.
#[derive(Clone, Copy, Debug, PartialEq, Eq, Structural)]
pub enum StartError {
    /// A run is under way.
    AlreadyRunning,
    /// The path of the given program does not name an existing executable.
    Validation(Target),
}

/// The outcome of a request to run, with the plan's paths as sequences of
/// characters.
pub open spec fn view_start(r: Result<LaunchPlan, StartError>) -> Result<
    LaunchPlanView,
    StartError,
> {
    match r {
        Ok(plan) => Ok(plan@),
        Err(error) => Err(error),
    }
}

/// The orchestrator's state.
#[derive(Clone, Debug, PartialEq, Eq)]
pub struct Orchestrator {
    /// The path of the launcher's executable.
    pub battle_net_path: String,
    /// The path of the game's executable.
    pub wow_executable_path: String,
    /// The configuration file and what was read from it.
    pub store: LocaleConfigStore,
    /// The preferred locale, as the user left it.
    pub preferred_locale: String,
    /// What was reported last, if anything.
    pub status: Option<String>,
    /// Whether a run is under way.
    pub run_active: bool,
}

/// An [`Orchestrator`] with its texts as sequences of characters.
pub struct OrchestratorView {
    pub battle_net_path: Seq<char>,
    pub wow_executable_path: Seq<char>,
    pub store: StoreModel,
    pub preferred_locale: Seq<char>,
    pub status: Option<Seq<char>>,
    pub run_active: bool,
}

impl View for Orchestrator {
    type V = OrchestratorView;

    open spec fn view(&self) -> OrchestratorView {
        OrchestratorView {
            battle_net_path: self.battle_net_path@,
            wow_executable_path: self.wow_executable_path@,
            store: self.store@,
            preferred_locale: self.preferred_locale@,
            status: self.status.deep_view(),
            run_active: self.run_active,
        }
    }
}

/// The extension that a path in the given slot must have.
pub open spec fn slot_extension_text(slot: PathSlot) -> Seq<char> {
    match slot {
        PathSlot::Config => "wtf"@,
        _ => "exe"@,
    }
}

/// What is reported when a file picked for the given slot is of the wrong kind.
pub open spec fn slot_rejection_text(slot: PathSlot) -> Seq<char> {
    match slot {
        PathSlot::Config => "Selected file is not a .wtf file"@,
        _ => "Selected file is not an .exe"@,
    }
}

/// What is reported when a run is asked for and the given program's path is no
/// existing executable.
pub open spec fn run_complaint_text(target: Target) -> Seq<char> {
    match target {
        Target::Launcher => "Battle.net path must point to an existing .exe"@,
        Target::Game => "WoW Executable must point to an existing .exe"@,
    }
}

/// What is reported on closing when the path in the given slot is not in order.
pub open spec fn close_complaint_text(slot: PathSlot) -> Seq<char> {
    match slot {
        PathSlot::Launcher => "Battle.net path must point to an existing .exe"@,
        PathSlot::Config => "Config.wtf path must point to an existing .wtf file"@,
        PathSlot::Game => "WoW Executable must point to an existing .exe file"@,
    }
}

/// The complaints on closing, in the order launcher, configuration file, game.
pub open spec fn close_complaints(
    launcher_ok: bool,
    config_ok: bool,
    game_ok: bool,
) -> Seq<Seq<char>> {
    let first = if launcher_ok {
        Seq::<Seq<char>>::empty()
    } else {
        seq![close_complaint_text(PathSlot::Launcher)]
    };
    let second = if config_ok {
        first
    } else {
        first.push(close_complaint_text(PathSlot::Config))
    };
    if game_ok {
        second
    } else {
        second.push(close_complaint_text(PathSlot::Game))
    }
}

impl OrchestratorView {
    /// The state with another status.
    pub open spec fn with_status(self, text: Seq<char>) -> OrchestratorView {
        OrchestratorView { status: Some(text), ..self }
    }

    /// The state after the preferred locale was looked at: it is normalised, and
    /// where that dropped something the user is told.
    pub open spec fn observe_preferred(self) -> OrchestratorView {
        OrchestratorView {
            preferred_locale: spec_normalize(self.preferred_locale),
            status: match spec_normalization_notice(spec_normalization(self.preferred_locale)) {
                Some(notice) => Some(notice),
                None => self.status,
            },
            ..self
        }
    }

    /// The state with the path in the given slot replaced.
    pub open spec fn with_slot(self, slot: PathSlot, path: Seq<char>) -> OrchestratorView {
        match slot {
            PathSlot::Launcher => OrchestratorView { battle_net_path: path, ..self },
            PathSlot::Config => OrchestratorView { store: self.store.with_path(path), ..self },
            PathSlot::Game => OrchestratorView { wow_executable_path: path, ..self },
        }
    }

    /// The path in the given slot.
    pub open spec fn slot(self, slot: PathSlot) -> Seq<char> {
        match slot {
            PathSlot::Launcher => self.battle_net_path,
            PathSlot::Config => self.store.path,
            PathSlot::Game => self.wow_executable_path,
        }
    }

    /// The state after a file was picked for a slot and found to be, or not to
    /// be, of the right kind.
    pub open spec fn accept_selection(
        self,
        slot: PathSlot,
        picked: Seq<char>,
        accepted: bool,
    ) -> OrchestratorView {
        if accepted {
            self.with_slot(slot, picked).with_status("Selected (unsaved)"@)
        } else {
            self.with_status(slot_rejection_text(slot))
        }
    }

    /// The state after a run was asked for.
    pub open spec fn decide_run(self, launcher_ok: bool, game_ok: bool) -> OrchestratorView {
        if self.run_active {
            self
        } else if !launcher_ok {
            self.with_status(run_complaint_text(Target::Launcher))
        } else if !game_ok {
            self.with_status(run_complaint_text(Target::Game))
        } else {
            OrchestratorView {
                run_active: true,
                status: Some("Starting run sequence..."@),
                ..self
            }
        }
    }

    /// What a request to run is answered with.
    pub open spec fn run_answer(self, launcher_ok: bool, game_ok: bool) -> Result<
        LaunchPlanView,
        StartError,
    > {
        if self.run_active {
            Err(StartError::AlreadyRunning)
        } else if !launcher_ok {
            Err(StartError::Validation(Target::Launcher))
        } else if !game_ok {
            Err(StartError::Validation(Target::Game))
        } else {
            Ok(LaunchPlanView { launcher: self.battle_net_path, game: self.wow_executable_path })
        }
    }

    /// The state after the runner said `message`: the sentinel ends the run, any
    /// other message becomes the status.
    pub open spec fn on_progress(self, message: Seq<char>) -> OrchestratorView {
        if message == finished_text() {
            OrchestratorView {
                run_active: false,
                status: Some("Run sequence completed"@),
                ..self
            }
        } else {
            self.with_status(message)
        }
    }

    /// The state after the runner said `messages`, one after the other.
    pub open spec fn deliver(self, messages: Seq<Seq<char>>) -> OrchestratorView
        decreases messages.len(),
    {
        if messages.len() == 0 {
            self
        } else {
            self.deliver(messages.drop_last()).on_progress(messages.last())
        }
    }

    /// The state after closing was asked for: with every path in order nothing
    /// changes; otherwise the complaints become the status.
    pub open spec fn decide_close(
        self,
        launcher_ok: bool,
        config_ok: bool,
        game_ok: bool,
    ) -> OrchestratorView {
        if launcher_ok && config_ok && game_ok {
            self
        } else {
            self.with_status(spec_join(close_complaints(launcher_ok, config_ok, game_ok), "; "@))
        }
    }

    /// The state after an update was asked for and the file was probed.
    pub open spec fn begin_update(self, probe: FileProbeView) -> OrchestratorView {
        match self.store.permit_update(probe) {
            Ok(()) => self,
            Err(error) => self.fail_update(spec_error_text(error)),
        }
    }

    /// The state after an update failed for the given cause.
    pub open spec fn fail_update(self, cause: Seq<char>) -> OrchestratorView {
        self.with_status("Error updating config: "@ + cause)
    }

    /// The state after the rewritten file was written: the next refresh reads it.
    pub open spec fn complete_update(self) -> OrchestratorView {
        OrchestratorView {
            store: self.store.invalidate(),
            status: Some("Config.wtf updated"@),
            ..self
        }
    }

    /// The state after the configuration file was changed from outside: the next
    /// refresh reads it.
    pub open spec fn external_change(self) -> OrchestratorView {
        OrchestratorView {
            store: self.store.invalidate(),
            status: Some("Config.wtf changed on disk; reloaded"@),
            ..self
        }
    }
}

impl PathSlot {
    /// The extension that a path in this slot must have.
    pub fn extension(self) -> (ext: &'static str)
        ensures
            ext@ == slot_extension_text(self),
    {
        match self {
            PathSlot::Config => "wtf",
            _ => "exe",
        }
    }
}

impl Orchestrator {
    /// The state at start-up, from the settings that were kept: no status, no run,
    /// nothing read yet. An empty preferred locale becomes the default.
    pub fn new(battle: String, config: String, wow: String, preferred: String) -> (o: Self)
        ensures
            o@ == (OrchestratorView {
                battle_net_path: battle@,
                wow_executable_path: wow@,
                store: StoreModel {
                    path: config@,
                    audio_locale: None,
                    text_locale: None,
                    last_path: None,
                },
                preferred_locale: if preferred@.len() == 0 {
                    default_locale_text()
                } else {
                    preferred@
                },
                status: None,
                run_active: false,
            }),
    {
        let preferred_locale = if preferred.as_str().is_empty() {
            default_locale()
        } else {
            preferred
        };
        Orchestrator {
            battle_net_path: battle,
            wow_executable_path: wow,
            store: LocaleConfigStore::new(config),
            preferred_locale,
            status: None,
            run_active: false,
        }
    }

    /// Looks at the preferred locale as the user left it and normalises it: the
    /// first four ASCII letters stay, and the default stands in where there is
    /// none. Where that dropped something, the status says so.
    pub fn observe_preferred(&mut self) -> (outcome: Normalization)
        ensures
            final(self)@ == old(self)@.observe_preferred(),
            outcome == spec_normalization(old(self)@.preferred_locale),
            spec_is_valid_locale(final(self)@.preferred_locale),
    {
        let (normalized, outcome) = normalize_preferred(self.preferred_locale.as_str());
        self.preferred_locale = normalized;
        match normalization_notice(outcome) {
            Some(notice) => {
                self.status = Some(notice);
            },
            None => {},
        }
        outcome
    }

    /// Takes in the verdict on a file that was picked for a slot: an accepted file
    /// becomes the slot's path, a rejected one is reported.
    pub fn accept_selection(&mut self, slot: PathSlot, picked: String, accepted: bool)
        ensures
            final(self)@ == old(self)@.accept_selection(slot, picked@, accepted),
    {
        if accepted {
            match slot {
                PathSlot::Launcher => {
                    self.battle_net_path = picked;
                },
                PathSlot::Config => {
                    self.store.set_path(picked);
                },
                PathSlot::Game => {
                    self.wow_executable_path = picked;
                },
            }
            self.status = Some("Selected (unsaved)".to_owned());
        } else {
            match slot {
                PathSlot::Config => {
                    self.status = Some("Selected file is not a .wtf file".to_owned());
                },
                _ => {
                    self.status = Some("Selected file is not an .exe".to_owned());
                },
            }
        }
    }

    /// Takes in a file that was picked for a slot. `is_file` says whether a regular
    /// file is at the path. The file is accepted if it is one with the slot's
    /// extension; what follows is what `accept_selection` does.
    pub fn select_path(&mut self, slot: PathSlot, picked: String, is_file: bool) -> (accepted: bool)
        ensures
            final(self)@ == old(self)@.accept_selection(slot, picked@, accepted),
            accepted == spec_is_file_with_ext(picked@, is_file, slot_extension_text(slot)),
    {
        let accepted = is_file_with_ext(picked.as_str(), is_file, slot.extension());
        self.accept_selection(slot, picked, accepted);
        accepted
    }

    /// Whether the path in the given slot names a regular file with the slot's
    /// extension, where `is_file` says whether a regular file is at the path.
    pub fn slot_in_order(&self, slot: PathSlot, is_file: bool) -> (ok: bool)
        ensures
            ok == self@.slot_in_order(slot, is_file),
            ok ==> exists|e: Seq<char>|
                #![trigger spec_follows_dot(self@.slot(slot), e)]
                !e.contains('.') && spec_follows_dot(self@.slot(slot), e)
                    && spec_eq_ignore_ascii_case(e, slot_extension_text(slot)),
    {
        let path = match slot {
            PathSlot::Launcher => self.battle_net_path.as_str(),
            PathSlot::Config => self.store.path.as_str(),
            PathSlot::Game => self.wow_executable_path.as_str(),
        };
        assert(path@ == self@.slot(slot));
        is_file_with_ext(path, is_file, slot.extension())
    }

    /// Decides on a request to run, given whether each program's path is in
    /// order. While a run is under way the request is refused and nothing
    /// changes. A path that is not in order is reported, the launcher's first.
    /// Otherwise the run is on, and the two paths to start are handed out.
    pub fn decide_run(&mut self, launcher_ok: bool, game_ok: bool) -> (r: Result<
        LaunchPlan,
        StartError,
    >)
        ensures
            final(self)@ == old(self)@.decide_run(launcher_ok, game_ok),
            view_start(r) == old(self)@.run_answer(launcher_ok, game_ok),
    {
        if self.run_active {
            Err(StartError::AlreadyRunning)
        } else if !launcher_ok {
            self.status = Some("Battle.net path must point to an existing .exe".to_owned());
            Err(StartError::Validation(Target::Launcher))
        } else if !game_ok {
            self.status = Some("WoW Executable must point to an existing .exe".to_owned());
            Err(StartError::Validation(Target::Game))
        } else {
            self.run_active = true;
            self.status = Some("Starting run sequence...".to_owned());
            Ok(
                LaunchPlan {
                    launcher: self.battle_net_path.clone(),
                    game: self.wow_executable_path.clone(),
                },
            )
        }
    }

    /// Answers a request to run. The flags say whether a regular file is at each
    /// program's path. Each path is in order if it names a regular file with the
    /// extension `exe`; what follows is what `decide_run` does.
    pub fn request_run(&mut self, launcher_is_file: bool, game_is_file: bool) -> (r: Result<
        LaunchPlan,
        StartError,
    >)
        ensures
            final(self)@ == old(self)@.decide_run(
                old(self)@.slot_in_order(PathSlot::Launcher, launcher_is_file),
                old(self)@.slot_in_order(PathSlot::Game, game_is_file),
            ),
            view_start(r) == old(self)@.run_answer(
                old(self)@.slot_in_order(PathSlot::Launcher, launcher_is_file),
                old(self)@.slot_in_order(PathSlot::Game, game_is_file),
            ),
            old(self)@.run_active ==> r == Err::<LaunchPlan, StartError>(
                StartError::AlreadyRunning,
            ) && final(self)@ == old(self)@,
            !old(self)@.run_active && !launcher_is_file ==> r == Err::<LaunchPlan, StartError>(
                StartError::Validation(Target::Launcher),
            ),
            r is Ok ==> launcher_is_file && game_is_file && final(self)@.run_active,
    {
        let launcher_ok = self.slot_in_order(PathSlot::Launcher, launcher_is_file);
        let game_ok = self.slot_in_order(PathSlot::Game, game_is_file);
        self.decide_run(launcher_ok, game_ok)
    }

    /// Takes in a message of the runner. The sentinel ends the run; any other
    /// message becomes the status. Says whether the run ended.
    pub fn on_progress(&mut self, message: String) -> (finished: bool)
        ensures
            final(self)@ == old(self)@.on_progress(message@),
            finished == (message@ == finished_text()),
    {
        if is_finished_message(message.as_str()) {
            self.run_active = false;
            self.status = Some("Run sequence completed".to_owned());
            true
        } else {
            self.status = Some(message);
            false
        }
    }

    /// Takes in the messages of the runner that have come in, one after the other.
    /// Says whether the sentinel was among them.
    pub fn deliver(&mut self, messages: &Vec<String>) -> (finished: bool)
        ensures
            final(self)@ == old(self)@.deliver(messages.deep_view()),
            finished == messages.deep_view().contains(finished_text()),
    {
        let mut finished = false;
        let ghost all = messages.deep_view();
        let mut done: usize = 0;
        assert(all.take(0) =~= Seq::<Seq<char>>::empty());
        while done < messages.len()
            invariant
                done <= messages.len(),
                all == messages.deep_view(),
                self@ == old(self)@.deliver(all.take(done as int)),
                finished == all.take(done as int).contains(finished_text()),
            decreases messages.len() - done,
        {
            let message = messages[done].clone();
            proof {
                let seen = all.take(done + 1);
                assert(message@ == all[done as int]);
                assert(seen.drop_last() =~= all.take(done as int));
                assert(seen.last() == message@);
                if all.take(done as int).contains(finished_text()) {
                    let k = choose|k: int|
                        0 <= k < done && all.take(done as int)[k] == finished_text();
                    assert(seen[k] == finished_text());
                }
                if seen.contains(finished_text()) {
                    let k = choose|k: int| 0 <= k < seen.len() && seen[k] == finished_text();
                    if k < done {
                        assert(all.take(done as int)[k] == finished_text());
                    }
                }
            }
            if self.on_progress(message) {
                finished = true;
            }
            done = done + 1;
        }
        assert(all.take(messages.len() as int) =~= all);
        finished
    }

    /// Decides on a request to close, given whether each path is in order. Says
    /// whether the settings may be saved and the program left; if not, the
    /// complaints become the status.
    pub fn decide_close(&mut self, launcher_ok: bool, config_ok: bool, game_ok: bool) -> (ok: bool)
        ensures
            final(self)@ == old(self)@.decide_close(launcher_ok, config_ok, game_ok),
            ok == (launcher_ok && config_ok && game_ok),
    {
        if launcher_ok && config_ok && game_ok {
            return true;
        }
        let mut complaints: Vec<String> = Vec::new();
        if !launcher_ok {
            complaints.push("Battle.net path must point to an existing .exe".to_owned());
        }
        if !config_ok {
            complaints.push("Config.wtf path must point to an existing .wtf file".to_owned());
        }
        if !game_ok {
            complaints.push("WoW Executable must point to an existing .exe file".to_owned());
        }
        assert(complaints.deep_view() =~= close_complaints(launcher_ok, config_ok, game_ok));
        self.status = Some(join(&complaints, "; "));
        false
    }

    /// Answers a request to close. The flags say whether a regular file is at each
    /// path. A path is in order if it names a regular file with its slot's
    /// extension; what follows is what `decide_close` does.
    pub fn request_close(
        &mut self,
        launcher_is_file: bool,
        config_is_file: bool,
        game_is_file: bool,
    ) -> (ok: bool)
        ensures
            final(self)@ == old(self)@.decide_close(
                old(self)@.slot_in_order(PathSlot::Launcher, launcher_is_file),
                old(self)@.slot_in_order(PathSlot::Config, config_is_file),
                old(self)@.slot_in_order(PathSlot::Game, game_is_file),
            ),
            ok == (old(self)@.slot_in_order(PathSlot::Launcher, launcher_is_file) && old(
                self,
            )@.slot_in_order(PathSlot::Config, config_is_file) && old(self)@.slot_in_order(
                PathSlot::Game,
                game_is_file,
            )),
            ok ==> launcher_is_file && config_is_file && game_is_file,
            ok ==> final(self)@ == old(self)@,
    {
        let launcher_ok = self.slot_in_order(PathSlot::Launcher, launcher_is_file);
        let config_ok = self.slot_in_order(PathSlot::Config, config_is_file);
        let game_ok = self.slot_in_order(PathSlot::Game, game_is_file);
        self.decide_close(launcher_ok, config_ok, game_ok)
    }

    /// Reports that the settings could not be saved.
    pub fn save_failed(&mut self, cause: &str)
        ensures
            final(self)@ == old(self)@.with_status("Error saving: "@ + cause@),
    {
        let mut text = "Error saving: ".to_owned();
        text.append(cause);
        self.status = Some(text);
    }

    /// Begins an update of the configuration file, given what was found at its
    /// path. Where the file may not be rewritten, the reason is returned and
    /// reported; nothing else changes.
    pub fn begin_update(&mut self, probe: &FileProbe) -> (r: Result<(), ConfigError>)
        ensures
            view_outcome(r) == old(self)@.store.permit_update(probe@),
            final(self)@ == old(self)@.begin_update(probe@),
            probe@.too_large() ==> r is Err,
    {
        let r = self.store.permit_update(probe);
        match &r {
            Ok(()) => {},
            Err(error) => {
                let cause = error.message();
                self.fail_update(cause.as_str());
            },
        }
        r
    }

    /// The contents of the configuration file rewritten to the preferred locale.
    pub fn rewritten(&self, contents: &str) -> (out: String)
        ensures
            out@ == spec_rewrite(contents@, self@.preferred_locale),
    {
        rewrite_locales(contents, self.preferred_locale.as_str())
    }

    /// Reports that an update failed, for a cause that reading or writing gave.
    pub fn fail_update(&mut self, cause: &str)
        ensures
            final(self)@ == old(self)@.fail_update(cause@),
    {
        let mut text = "Error updating config: ".to_owned();
        text.append(cause);
        self.status = Some(text);
    }

    /// Takes in that the rewritten file was written: the update is reported, and
    /// the next refresh reads the file whatever path was read last.
    pub fn complete_update(&mut self)
        ensures
            final(self)@ == old(self)@.complete_update(),
    {
        self.store.invalidate();
        self.status = Some("Config.wtf updated".to_owned());
    }

    /// Takes in that the configuration file was changed from outside: the change
    /// is reported, and the next refresh reads the file whatever path was read
    /// last.
    pub fn note_external_change(&mut self)
        ensures
            final(self)@ == old(self)@.external_change(),
    {
        self.store.invalidate();
        self.status = Some("Config.wtf changed on disk; reloaded".to_owned());
    }

    /// Takes in a notification of the watcher: the paths that were modified. Where
    /// one of them is the configuration file's, this is an outside change, and
    /// the caller is told to refresh; any other notification is ignored and
    /// changes nothing. A path spelled as the configured one always counts;
    /// without a configured path none does.
    pub fn on_watch_event(&mut self, paths: &Vec<String>) -> (reload: bool)
        ensures
            reload == old(self)@.watch_hit(paths.deep_view()),
            final(self)@ == old(self)@.on_watch_event(paths.deep_view()),
            old(self)@.store.path.len() > 0 && (exists|i: int|
                0 <= i < paths@.len() && (#[trigger] paths@[i])@ == old(self)@.store.path)
                ==> reload,
    {
        let reload = any_path_matches(self.store.path.as_str(), paths);
        if reload {
            self.note_external_change();
        }
        reload
    }

    /// Reports an error of the watcher. Nothing else changes.
    pub fn on_watch_error(&mut self, cause: &str)
        ensures
            final(self)@ == old(self)@.with_status("File watcher error: "@ + cause@),
    {
        let mut text = "File watcher error: ".to_owned();
        text.append(cause);
        self.status = Some(text);
    }
}

/// Messages other than the sentinel leave the run flag as it is.
pub proof fn lemma_deliver_keeps_run(o: OrchestratorView, messages: Seq<Seq<char>>)
    requires
        forall|i: int| 0 <= i < messages.len() ==> messages[i] != finished_text(),
    ensures
        o.deliver(messages).run_active == o.run_active,
    decreases messages.len(),
{
    if messages.len() > 0 {
        let head = messages.drop_last();
        assert forall|i: int| 0 <= i < head.len() implies head[i] != finished_text() by {
            assert(head[i] == messages[i]);
        }
        lemma_deliver_keeps_run(o, head);
    }
}

/// While a run that was started has not said the sentinel, a second request to
/// run is refused and changes nothing, whatever else the run said meanwhile and
/// whatever state the paths are in.
pub proof fn lemma_second_start_rejected(
    o: OrchestratorView,
    launcher_ok: bool,
    game_ok: bool,
    messages: Seq<Seq<char>>,
    launcher_ok_then: bool,
    game_ok_then: bool,
)
    requires
        o.run_answer(launcher_ok, game_ok) is Ok,
        forall|i: int| 0 <= i < messages.len() ==> messages[i] != finished_text(),
    ensures
        o.decide_run(launcher_ok, game_ok).deliver(messages).run_answer(
            launcher_ok_then,
            game_ok_then,
        ) == Err::<LaunchPlanView, StartError>(StartError::AlreadyRunning),
        o.decide_run(launcher_ok, game_ok).deliver(messages).decide_run(
            launcher_ok_then,
            game_ok_then,
        ) == o.decide_run(launcher_ok, game_ok).deliver(messages),
{
    lemma_deliver_keeps_run(o.decide_run(launcher_ok, game_ok), messages);
}

/// Once the sentinel was said, a run can be started again.
pub proof fn lemma_finished_frees_start(o: OrchestratorView)
    ensures
        !o.on_progress(finished_text()).run_active,
        o.on_progress(finished_text()).run_answer(true, true) is Ok,
{
}

/// An update brings both values to the preferred locale: after the file was
/// rewritten to a preferred locale that is one to four ASCII letters, the refresh
/// that reads what was written gives that locale for both values, whatever the
/// file held before, provided that the file stays under the size guard.
pub proof fn lemma_update_sets_preferred(
    o: OrchestratorView,
    before: Seq<char>,
    probe: FileProbeView,
)
    requires
        o.store.path.len() > 0,
        spec_is_valid_locale(o.preferred_locale),
        probe is Found,
        !probe.too_large(),
    ensures
        o.complete_update().store.reload(
            probe,
            Some(spec_rewrite(before, o.preferred_locale)),
        ).audio_locale == Some(o.preferred_locale),
        o.complete_update().store.reload(
            probe,
            Some(spec_rewrite(before, o.preferred_locale)),
        ).text_locale == Some(o.preferred_locale),
{
    lemma_valid_locale_is_plain(o.preferred_locale);
    lemma_update_round_trip(o.complete_update().store, before, o.preferred_locale, probe);
}

impl OrchestratorView {
    /// Whether the path in the given slot names a regular file with the slot's
    /// extension, where `is_file` says whether a regular file is at the path.
    pub open spec fn slot_in_order(self, slot: PathSlot, is_file: bool) -> bool {
        spec_is_file_with_ext(self.slot(slot), is_file, slot_extension_text(slot))
    }

    /// Whether a notification for the given paths is one for the configuration
    /// file: a path is configured, and one of the paths is the same path.
    pub open spec fn watch_hit(self, paths: Seq<Seq<char>>) -> bool {
        spec_any_path_matches(self.store.path, paths)
    }

    /// The state after a notification for the given paths: an outside change
    /// where it is one for the configuration file, and the state as it was where
    /// it is not.
    pub open spec fn on_watch_event(self, paths: Seq<Seq<char>>) -> OrchestratorView {
        if self.watch_hit(paths) {
            self.external_change()
        } else {
            self
        }
    }
}

/// A notification for other files is ignored: where none of its paths is the
/// configuration file's, nothing changes, neither the values nor the status.
pub proof fn lemma_other_paths_are_ignored(o: OrchestratorView, paths: Seq<Seq<char>>)
    requires
        forall|i: int| 0 <= i < paths.len() ==> !path_same(o.store.path, #[trigger] paths[i]),
    ensures
        !o.watch_hit(paths),
        o.on_watch_event(paths) == o,
{
}

} // verus!
