//! The locale configuration store: the path of the configuration file, the two
//! locale values last read from it, and the decisions about when the file may be
//! read or rewritten.
//!
//! The store never touches the file. It says what is to be done; the caller
//! looks at the disk, reports what it found as a [`FileProbe`], and hands over
//! what it read.

use vstd::prelude::*;
use crate::config::{
    lemma_rewrite_then_parse, parse_locales, spec_no_quote, spec_parse, spec_rewrite,
};
use crate::text::spec_no_line_feed;

verus! {

/// A file of this many bytes or more is neither read nor rewritten.
pub const SIZE_GUARD: u64 = 8192;

/// What stands for both values when the file is too large to read.
pub open spec fn too_large_text() -> Seq<char> {
    "(file too large)"@
}

/// What the caller found at a path.
#[derive(Debug, PartialEq, Eq)]
pub enum FileProbe {
    /// Nothing is there.
    Missing,
    /// Something is there. `is_file` says whether it is a regular file; `size` is
    /// its length in bytes, or the reason why the length could not be had.
    Found { is_file: bool, size: Result<u64, String> },
}

/// A [`FileProbe`] with its text as a sequence of characters.
pub enum FileProbeView {
    Missing,
    Found { is_file: bool, size: Result<u64, Seq<char>> },
}

impl View for FileProbe {
    type V = FileProbeView;

    open spec fn view(&self) -> FileProbeView {
        match self {
            FileProbe::Missing => FileProbeView::Missing,
            FileProbe::Found { is_file, size } => FileProbeView::Found {
                is_file: *is_file,
                size: match size {
                    Ok(n) => Ok(*n),
                    Err(cause) => Err(cause@),
                },
            },
        }
    }
}

impl FileProbeView {
    /// Whether the probe shows a file that the size guard keeps closed.
    pub open spec fn too_large(self) -> bool {
        self matches FileProbeView::Found { size: Ok(n), .. } && n >= SIZE_GUARD
    }
}

/// Why the configuration file cannot be rewritten.
#[derive(Clone, Debug, PartialEq, Eq)]
pub enum ConfigError {
    /// No path is configured.
    NotConfigured,
    /// Nothing is at the path, or what is there is no regular file.
    NotFound,
    /// The file trips the size guard.
    TooLarge,
    /// Looking at the file, reading it or writing it failed; the text is the cause.
    Io(String),
}

/// A [`ConfigError`] with its text as a sequence of characters.
pub enum ConfigErrorView {
    NotConfigured,
    NotFound,
    TooLarge,
    Io(Seq<char>),
}

impl View for ConfigError {
    type V = ConfigErrorView;

    open spec fn view(&self) -> ConfigErrorView {
        match self {
            ConfigError::NotConfigured => ConfigErrorView::NotConfigured,
            ConfigError::NotFound => ConfigErrorView::NotFound,
            ConfigError::TooLarge => ConfigErrorView::TooLarge,
            ConfigError::Io(cause) => ConfigErrorView::Io(cause@),
        }
    }
}

/// The outcome of a check, with the error's text as a sequence of characters.
pub open spec fn view_outcome(r: Result<(), ConfigError>) -> Result<(), ConfigErrorView> {
    match r {
        Ok(()) => Ok(()),
        Err(error) => Err(error@),
    }
}

/// The words that stand for an error.
pub open spec fn spec_error_text(error: ConfigErrorView) -> Seq<char> {
    match error {
        ConfigErrorView::NotConfigured => "Config.wtf path is not set"@,
        ConfigErrorView::NotFound => "Config.wtf path does not exist or is not a file"@,
        ConfigErrorView::TooLarge => "Config.wtf file is too large to safely edit"@,
        ConfigErrorView::Io(cause) => cause,
    }
}

impl ConfigError {
    /// The words that stand for the error.
    pub fn message(&self) -> (text: String)
        ensures
            text@ == spec_error_text(self@),
    {
        match self {
            ConfigError::NotConfigured => "Config.wtf path is not set".to_owned(),
            ConfigError::NotFound => "Config.wtf path does not exist or is not a file".to_owned(),
            ConfigError::TooLarge => "Config.wtf file is too large to safely edit".to_owned(),
            ConfigError::Io(cause) => cause.clone(),
        }
    }
}

/// What a refresh asks of the caller.
#[derive(Clone, Debug, PartialEq, Eq)]
pub enum RefreshPlan {
    /// The path is the one that was read last: nothing is to be done.
    UpToDate,
    /// The path is another one than was read last, and the values were cleared.
    /// Stop watching `unwatch` and start watching `watch`, where they are paths.
    /// Where `watch` is a path, probe it and go on with `permit_read`.
    Rewatch { unwatch: Option<String>, watch: Option<String> },
}

/// A [`RefreshPlan`] with its paths as sequences of characters.
pub enum RefreshPlanView {
    UpToDate,
    Rewatch { unwatch: Option<Seq<char>>, watch: Option<Seq<char>> },
}

impl View for RefreshPlan {
    type V = RefreshPlanView;

    open spec fn view(&self) -> RefreshPlanView {
        match self {
            RefreshPlan::UpToDate => RefreshPlanView::UpToDate,
            RefreshPlan::Rewatch { unwatch, watch } => RefreshPlanView::Rewatch {
                unwatch: unwatch.deep_view(),
                watch: watch.deep_view(),
            },
        }
    }
}

/// The store's state.
#[derive(Clone, Debug, PartialEq, Eq)]
pub struct LocaleConfigStore {
    /// The path of the configuration file; empty while none is configured.
    pub path: String,
    /// The audio locale last read, where the file set one.
    pub audio_locale: Option<String>,
    /// The text locale last read, where the file set one.
    pub text_locale: Option<String>,
    /// The path that the values were last read for.
    pub last_path: Option<String>,
}

/// A [`LocaleConfigStore`] with its texts as sequences of characters.
pub struct StoreModel {
    pub path: Seq<char>,
    pub audio_locale: Option<Seq<char>>,
    pub text_locale: Option<Seq<char>>,
    pub last_path: Option<Seq<char>>,
}

impl View for LocaleConfigStore {
    type V = StoreModel;

    open spec fn view(&self) -> StoreModel {
        StoreModel {
            path: self.path@,
            audio_locale: self.audio_locale.deep_view(),
            text_locale: self.text_locale.deep_view(),
            last_path: self.last_path.deep_view(),
        }
    }
}

impl StoreModel {
    /// The store with another path.
    pub open spec fn with_path(self, path: Seq<char>) -> StoreModel {
        StoreModel { path, ..self }
    }

    /// The store with both values replaced.
    pub open spec fn with_values(
        self,
        audio_locale: Option<Seq<char>>,
        text_locale: Option<Seq<char>>,
    ) -> StoreModel {
        StoreModel { audio_locale, text_locale, ..self }
    }

    /// The store made to forget which path it read last, so that the next refresh
    /// reads again.
    pub open spec fn invalidate(self) -> StoreModel {
        StoreModel { last_path: None, ..self }
    }

    /// The path to watch: the configured one, unless it is empty.
    pub open spec fn watched(self) -> Option<Seq<char>> {
        if self.path.len() == 0 {
            None
        } else {
            Some(self.path)
        }
    }

    /// Whether the values were read for the path as it stands.
    pub open spec fn up_to_date(self) -> bool {
        self.last_path == Some(self.path)
    }

    /// The store after a refresh began.
    pub open spec fn begin_refresh(self) -> StoreModel {
        if self.up_to_date() {
            self
        } else {
            StoreModel {
                path: self.path,
                audio_locale: None,
                text_locale: None,
                last_path: self.watched(),
            }
        }
    }

    /// What a refresh asks of the caller.
    pub open spec fn refresh_plan(self) -> RefreshPlanView {
        if self.up_to_date() {
            RefreshPlanView::UpToDate
        } else {
            RefreshPlanView::Rewatch { unwatch: self.last_path, watch: self.watched() }
        }
    }

    /// Whether the file is to be read after the probe.
    pub open spec fn permits_read(self, probe: FileProbeView) -> bool {
        probe is Found && !probe.too_large()
    }

    /// The store after the probe.
    pub open spec fn permit_read(self, probe: FileProbeView) -> StoreModel {
        if probe.too_large() {
            self.with_values(Some(too_large_text()), Some(too_large_text()))
        } else {
            self
        }
    }

    /// The store after the file was read, or could not be.
    pub open spec fn load(self, contents: Option<Seq<char>>) -> StoreModel {
        match contents {
            Some(text) => self.with_values(spec_parse(text).audio, spec_parse(text).text),
            None => self,
        }
    }

    /// Whether the file may be rewritten, and if not, why.
    pub open spec fn permit_update(self, probe: FileProbeView) -> Result<(), ConfigErrorView> {
        if self.path.len() == 0 {
            Err(ConfigErrorView::NotConfigured)
        } else {
            match probe {
                FileProbeView::Missing => Err(ConfigErrorView::NotFound),
                FileProbeView::Found { is_file, size } => if !is_file {
                    Err(ConfigErrorView::NotFound)
                } else {
                    match size {
                        Err(cause) => Err(ConfigErrorView::Io(cause)),
                        Ok(n) => if n >= SIZE_GUARD {
                            Err(ConfigErrorView::TooLarge)
                        } else {
                            Ok(())
                        },
                    }
                },
            }
        }
    }

    /// The store after a whole refresh that was forced: the caller found `probe`
    /// at the path and, where it was let to read, `contents` in the file.
    pub open spec fn reload(self, probe: FileProbeView, contents: Option<Seq<char>>) -> StoreModel {
        let cleared = self.invalidate().begin_refresh();
        if cleared.watched() is None {
            cleared
        } else if cleared.permits_read(probe) {
            cleared.permit_read(probe).load(contents)
        } else {
            cleared.permit_read(probe)
        }
    }
}

impl LocaleConfigStore {
    /// A store for the given path that has read nothing yet.
    pub fn new(path: String) -> (store: Self)
        ensures
            store@ == (StoreModel {
                path: path@,
                audio_locale: None,
                text_locale: None,
                last_path: None,
            }),
    {
        LocaleConfigStore { path, audio_locale: None, text_locale: None, last_path: None }
    }

    /// Configures another path. The values stay until the next refresh.
    pub fn set_path(&mut self, path: String)
        ensures
            final(self)@ == old(self)@.with_path(path@),
    {
        self.path = path;
    }

    /// Makes the store forget which path it read last, so that the next refresh
    /// reads again.
    pub fn invalidate(&mut self)
        ensures
            final(self)@ == old(self)@.invalidate(),
    {
        self.last_path = None;
    }

    /// Whether the values were read for the path as it stands.
    pub fn up_to_date(&self) -> (r: bool)
        ensures
            r == self@.up_to_date(),
    {
        match &self.last_path {
            Some(last) => *last == self.path,
            None => false,
        }
    }

    /// Begins a refresh. Where the path is the one read last, nothing changes and
    /// nothing is asked. Otherwise the values are cleared, the path is recorded as
    /// read, and the caller is asked to move the watch from the path read before
    /// to this one; an empty path is neither recorded nor watched.
    pub fn begin_refresh(&mut self) -> (plan: RefreshPlan)
        ensures
            final(self)@ == old(self)@.begin_refresh(),
            plan@ == old(self)@.refresh_plan(),
    {
        if self.up_to_date() {
            return RefreshPlan::UpToDate;
        }
        let watch = if self.path.as_str().is_empty() {
            None
        } else {
            Some(self.path.clone())
        };
        let mut unwatch = watch.clone();
        std::mem::swap(&mut self.last_path, &mut unwatch);
        self.audio_locale = None;
        self.text_locale = None;
        RefreshPlan::Rewatch { unwatch, watch }
    }

    /// Decides on a probe whether the file is read. Nothing at the path: the file
    /// is not read. A file that trips the size guard is not read, and both values
    /// become the words that say so. Anything else is read.
    pub fn permit_read(&mut self, probe: &FileProbe) -> (read: bool)
        ensures
            read == old(self)@.permits_read(probe@),
            final(self)@ == old(self)@.permit_read(probe@),
            probe@.too_large() ==> !read,
    {
        match probe {
            FileProbe::Missing => false,
            FileProbe::Found { is_file: _, size } => match size {
                Ok(n) => if *n >= SIZE_GUARD {
                    self.audio_locale = Some("(file too large)".to_owned());
                    self.text_locale = Some("(file too large)".to_owned());
                    false
                } else {
                    true
                },
                Err(_) => true,
            },
        }
    }

    /// Takes in what was read: the values become the ones that the contents hold.
    /// Where the file could not be read, nothing changes.
    pub fn load(&mut self, contents: Option<&str>)
        ensures
            final(self)@ == old(self)@.load(contents.deep_view()),
    {
        match contents {
            Some(text) => {
                let values = parse_locales(text);
                self.audio_locale = values.audio;
                self.text_locale = values.text;
            },
            None => {},
        }
    }

    /// Decides on a probe whether the file may be rewritten: not without a path,
    /// not unless a regular file is there, not when its size cannot be had, and
    /// not when it trips the size guard.
    pub fn permit_update(&self, probe: &FileProbe) -> (r: Result<(), ConfigError>)
        ensures
            view_outcome(r) == self@.permit_update(probe@),
            probe@.too_large() ==> r is Err,
    {
        if self.path.as_str().is_empty() {
            return Err(ConfigError::NotConfigured);
        }
        match probe {
            FileProbe::Missing => Err(ConfigError::NotFound),
            FileProbe::Found { is_file, size } => {
                if !*is_file {
                    return Err(ConfigError::NotFound);
                }
                match size {
                    Err(cause) => Err(ConfigError::Io(cause.clone())),
                    Ok(n) => if *n >= SIZE_GUARD {
                        Err(ConfigError::TooLarge)
                    } else {
                        Ok(())
                    },
                }
            },
        }
    }
}

/// The paths that are watched when the given one is, if any.
pub open spec fn watched_paths(path: Option<Seq<char>>) -> Set<Seq<char>> {
    match path {
        Some(p) => set![p],
        None => Set::empty(),
    }
}

/// The paths that are watched once the caller did what the plan asks.
pub open spec fn spec_watch_after(
    watched: Set<Seq<char>>,
    plan: RefreshPlanView,
) -> Set<Seq<char>> {
    match plan {
        RefreshPlanView::UpToDate => watched,
        RefreshPlanView::Rewatch { unwatch, watch } => {
            let left = match unwatch {
                Some(p) => watched.remove(p),
                None => watched,
            };
            match watch {
                Some(p) => left.insert(p),
                None => left,
            }
        },
    }
}

/// A refresh moves the watch with the path: where the path that was read last is
/// the one file watched, if any, it is so again after the refresh, and where the
/// refresh asked for anything, that file is the configured one.
pub proof fn lemma_refresh_moves_the_watch(store: StoreModel)
    ensures
        spec_watch_after(watched_paths(store.last_path), store.refresh_plan()) == watched_paths(
            store.begin_refresh().last_path,
        ),
        store.refresh_plan() is Rewatch ==> store.begin_refresh().last_path == store.watched(),
{
    let before = watched_paths(store.last_path);
    let after = spec_watch_after(before, store.refresh_plan());
    assert(after =~= watched_paths(store.begin_refresh().last_path));
}

/// A forced refresh of a path that did not change leaves the watch where it is.
pub proof fn lemma_forced_refresh_keeps_the_watch(store: StoreModel)
    requires
        store.up_to_date(),
    ensures
        spec_watch_after(watched_paths(store.last_path), store.invalidate().refresh_plan())
            == watched_paths(store.last_path),
        store.invalidate().begin_refresh().last_path == store.last_path || store.path.len() == 0,
{
    let before = watched_paths(store.last_path);
    let after = spec_watch_after(before, store.invalidate().refresh_plan());
    assert(after =~= before);
}

/// A file that trips the size guard is neither read nor rewritten, whatever else
/// holds: a refresh puts the words that say so in place of both values, and an
/// update is refused.
pub proof fn lemma_size_guard(store: StoreModel, probe: FileProbeView, contents: Option<Seq<char>>)
    requires
        probe.too_large(),
    ensures
        !store.permits_read(probe),
        store.permit_update(probe) is Err,
        store.path.len() > 0 ==> store.reload(probe, contents) == (StoreModel {
            path: store.path,
            audio_locale: Some(too_large_text()),
            text_locale: Some(too_large_text()),
            last_path: Some(store.path),
        }),
{
}

/// Reading a file again that did not change gives the same values. After a
/// refresh, a forced one that finds the same file leaves the store as it is, and
/// an unforced one changes nothing either; with a path configured it does not
/// even ask for the file.
pub proof fn lemma_refresh_idempotent(
    store: StoreModel,
    probe: FileProbeView,
    contents: Option<Seq<char>>,
)
    ensures
        store.reload(probe, contents).reload(probe, contents) == store.reload(probe, contents),
        store.reload(probe, contents).begin_refresh() == store.reload(probe, contents),
        store.path.len() > 0 ==> store.reload(probe, contents).refresh_plan()
            == RefreshPlanView::UpToDate,
{
}

/// After the file was rewritten to a locale, a refresh that reads what was written
/// gives that locale for both values, whatever the file held before, provided that
/// the file stays under the size guard and the locale holds neither a double quote
/// nor a line feed.
pub proof fn lemma_update_round_trip(
    store: StoreModel,
    before: Seq<char>,
    locale: Seq<char>,
    probe: FileProbeView,
)
    requires
        store.path.len() > 0,
        probe is Found,
        !probe.too_large(),
        spec_no_quote(locale),
        spec_no_line_feed(locale),
    ensures
        store.reload(probe, Some(spec_rewrite(before, locale))).audio_locale == Some(locale),
        store.reload(probe, Some(spec_rewrite(before, locale))).text_locale == Some(locale),
{
    lemma_rewrite_then_parse(before, locale);
}

} // verus!
