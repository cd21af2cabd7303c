//! Settings that decide where and under which name a screenshot is saved,
//! and whether it is copied to the clipboard.

use vstd::prelude::*;
use crate::clock::{local_timestamp, timestamp_shape};
use crate::image_coding::{format_label, ImageFormat};
use crate::text::{decimal, decimal_string};
use crate::itc::SettingsEvent;

verus! {

/// How the default file name is completed for each saved image.
#[derive(Debug, Clone, Copy)]
pub enum DefaultNameMode {
    /// The name alone (a file of the same name is overwritten).
    OnlyName,
    /// The name followed by a counter that grows by one per image.
    Counter(u64),
    /// The name followed by the local date and time.
    Timestamp,
}

/// The comparison of naming modes used by the settings screen: two counters
/// are alike whatever their values, two timestamp modes are alike, and nothing
/// else is (the name-only mode is not even alike to itself).
pub open spec fn modes_alike(a: DefaultNameMode, b: DefaultNameMode) -> bool {
    ||| (a is Counter && b is Counter)
    ||| (a is Timestamp && b is Timestamp)
}

impl PartialEq for DefaultNameMode {
    fn eq(&self, other: &Self) -> (r: bool) {
        match (self, other) {
            (DefaultNameMode::Counter(_), DefaultNameMode::Counter(_)) => true,
            (DefaultNameMode::Timestamp, DefaultNameMode::Timestamp) => true,
            _ => false,
        }
    }
}

impl vstd::std_specs::cmp::PartialEqSpecImpl for DefaultNameMode {
    open spec fn obeys_eq_spec() -> bool {
        true
    }

    open spec fn eq_spec(&self, other: &Self) -> bool {
        modes_alike(*self, *other)
    }
}

/// The text that describes a naming mode to the user.
pub open spec fn mode_label(m: DefaultNameMode) -> Seq<char> {
    match m {
        DefaultNameMode::OnlyName => "Default name"@,
        DefaultNameMode::Counter(_) => "Default name + incremental number"@,
        DefaultNameMode::Timestamp => "Default name + timestamp"@,
    }
}

impl DefaultNameMode {
    /// The text that describes the mode to the user.
    pub fn label(self) -> (r: &'static str)
        ensures
            r@ == mode_label(self),
    {
        match self {
            DefaultNameMode::OnlyName => "Default name",
            DefaultNameMode::Counter(..) => "Default name + incremental number",
            DefaultNameMode::Timestamp => "Default name + timestamp",
        }
    }
}

/// A directory in which every screenshot is saved, when enabled.
#[derive(Debug, Clone)]
pub struct DefaultDir {
    pub enabled: bool,
    pub path: String,
}

/// A name given to every screenshot, when enabled.
#[derive(Debug, Clone)]
pub struct DefaultName {
    pub enabled: bool,
    pub mode: DefaultNameMode,
    pub name: String,
}

/// Where and how screenshots are saved.
#[derive(Debug, Clone)]
pub struct SaveSettings {
    pub default_dir: DefaultDir,
    pub default_name: DefaultName,
    /// Whether a new screenshot is copied to the clipboard.
    pub copy_on_clipboard: bool,
}

/// Which file path is asked for once the settings have been consulted.
#[derive(Debug, Clone, PartialEq, Eq)]
pub enum OutputPathPlan {
    /// Both a default directory and a default name apply: the file is
    /// `dir/name.extension`, no dialog is shown.
    Direct { dir: String, name: String, extension: &'static str },
    /// Only a default name applies: the user picks a directory, then the name
    /// and extension are set on the picked path.
    PickDirectory { name: String, extension: &'static str },
    /// No default name applies: a save dialog opens (in the default directory
    /// when one applies), then the extension is set on the chosen path.
    SaveDialog { start_dir: Option<String>, extension: &'static str },
}

pub open spec fn opt_text(o: Option<String>) -> Option<Seq<char>> {
    match o {
        Some(s) => Some(s@),
        None => None,
    }
}

/// The default directory to use, given whether its path exists on disk.
pub open spec fn default_dir_for(d: DefaultDir, exists: bool) -> Option<Seq<char>> {
    if !d.enabled || d.path@.len() == 0 || !exists {
        None
    } else {
        Some(d.path@)
    }
}

/// The next default name, given the timestamp to use in timestamp mode.
pub open spec fn default_name_for(n: DefaultName, timestamp: Seq<char>) -> Option<Seq<char>> {
    if !n.enabled {
        None
    } else {
        match n.mode {
            DefaultNameMode::OnlyName => Some(n.name@),
            DefaultNameMode::Counter(c) => Some(n.name@ + decimal(c as nat)),
            DefaultNameMode::Timestamp => Some(n.name@ + timestamp),
        }
    }
}

/// The naming mode after a default name has been produced: a counter moves on
/// by one.
pub open spec fn mode_after_naming(n: DefaultName) -> DefaultNameMode {
    match n.mode {
        DefaultNameMode::Counter(c) => if n.enabled {
            DefaultNameMode::Counter((c + 1) as u64)
        } else {
            n.mode
        },
        m => m,
    }
}

/// A counter that can still move on.
pub open spec fn counter_can_advance(n: DefaultName) -> bool {
    n.enabled && n.mode is Counter ==> n.mode->Counter_0 < u64::MAX
}

pub open spec fn plan_for(
    dir: Option<Seq<char>>,
    name: Option<Seq<char>>,
    format: ImageFormat,
    plan: OutputPathPlan,
) -> bool {
    match (dir, name) {
        (Some(d), Some(n)) => plan matches OutputPathPlan::Direct { dir: pd, name: pn, extension } && pd@
            == d && pn@ == n && extension@ == format_label(format),
        (None, Some(n)) => plan matches OutputPathPlan::PickDirectory { name: pn, extension } && pn@
            == n && extension@ == format_label(format),
        (d, None) => plan matches OutputPathPlan::SaveDialog { start_dir, extension } && opt_text(
            start_dir,
        ) == d && extension@ == format_label(format),
    }
}

/// `std::path::Path::exists`: whether a path names something on disk. It
/// depends on the file system, so nothing is stated.
#[verifier::external_body]
pub(crate) fn path_exists(p: &str) -> (r: bool) {
    std::path::Path::new(p).exists()
}

/// Whether the settings may be saved: an enabled default directory must be
/// a non-empty path that exists.
pub open spec fn settings_valid(s: SaveSettings, dir_exists: bool) -> bool {
    !(s.default_dir.enabled && (s.default_dir.path@.len() == 0 || !dir_exists))
}

pub open spec fn invalid_dir_text() -> Seq<char> {
    "Invalid default directory path."@
}

pub open spec fn str_text(o: Option<&str>) -> Option<Seq<char>> {
    match o {
        Some(t) => Some(t@),
        None => None,
    }
}

/// What a frame of the settings screen reports for the buttons clicked.
pub open spec fn frame_event(
    s: SaveSettings,
    dir_clicked: bool,
    save_clicked: bool,
    abort_clicked: bool,
    dir_exists: bool,
) -> SettingsEvent {
    if abort_clicked {
        SettingsEvent::Aborted
    } else if save_clicked && settings_valid(s, dir_exists) {
        SettingsEvent::Saved
    } else if dir_clicked {
        SettingsEvent::OpenDirectoryDialog
    } else {
        SettingsEvent::Nil
    }
}

/// The alert of a frame of the settings screen: a failed save says why.
pub open spec fn frame_alert(s: SaveSettings, save_clicked: bool, dir_exists: bool) -> Option<Seq<char>> {
    if save_clicked && !settings_valid(s, dir_exists) {
        Some(invalid_dir_text())
    } else {
        None
    }
}

impl SaveSettings {
    /// No default directory, no default name (timestamp mode preselected),
    /// copying to the clipboard on.
    pub fn new() -> (r: SaveSettings)
        ensures
            !r.default_dir.enabled,
            r.default_dir.path@.len() == 0,
            !r.default_name.enabled,
            r.default_name.name@.len() == 0,
            r.default_name.mode is Timestamp,
            r.copy_on_clipboard,
    {
        SaveSettings {
            default_dir: DefaultDir { enabled: false, path: String::new() },
            default_name: DefaultName {
                enabled: false,
                name: String::new(),
                mode: DefaultNameMode::Timestamp,
            },
            copy_on_clipboard: true,
        }
    }

    /// The default directory, when it is enabled, not empty and, as
    /// `dir_exists` tells, present on disk.
    pub fn default_dir_given(&self, dir_exists: bool) -> (r: Option<String>)
        ensures
            opt_text(r) == default_dir_for(self.default_dir, dir_exists),
    {
        if !self.default_dir.enabled || self.default_dir.path.as_str().is_empty() || !dir_exists {
            None
        } else {
            Some(self.default_dir.path.clone())
        }
    }

    /// The default directory, when it is enabled, not empty and present on
    /// disk (a path may have disappeared since the settings were saved).
    pub fn get_default_dir(&self) -> (r: Option<String>)
        ensures
            opt_text(r) == default_dir_for(self.default_dir, true) || r is None,
            !self.default_dir.enabled || self.default_dir.path@.len() == 0 ==> r is None,
    {
        if !self.default_dir.enabled || self.default_dir.path.as_str().is_empty() {
            return None;
        }
        let exists = path_exists(self.default_dir.path.as_str());
        self.default_dir_given(exists)
    }

    /// The next default name, using `timestamp` in timestamp mode; a counter
    /// moves on by one.
    pub fn next_default_name(&mut self, timestamp: &str) -> (r: Option<String>)
        requires
            counter_can_advance(old(self).default_name),
        ensures
            opt_text(r) == default_name_for(old(self).default_name, timestamp@),
            final(self).default_name.mode == mode_after_naming(old(self).default_name),
            final(self).default_name.enabled == old(self).default_name.enabled,
            final(self).default_name.name == old(self).default_name.name,
            final(self).default_dir == old(self).default_dir,
            final(self).copy_on_clipboard == old(self).copy_on_clipboard,
    {
        if !self.default_name.enabled {
            return None;
        }
        match self.default_name.mode {
            DefaultNameMode::OnlyName => Some(self.default_name.name.clone()),
            DefaultNameMode::Counter(c) => {
                let mut s = self.default_name.name.clone();
                let digits = decimal_string(c);
                s.append(digits.as_str());
                self.default_name.mode = DefaultNameMode::Counter(c + 1);
                Some(s)
            },
            DefaultNameMode::Timestamp => {
                let mut s = self.default_name.name.clone();
                s.append(timestamp);
                Some(s)
            },
        }
    }

    /// The name for the next saved image, when a default name is enabled: the
    /// name alone, the name followed by the counter (which then moves on by
    /// one), or the name followed by the local date and time.
    pub fn get_default_name(&mut self) -> (r: Option<String>)
        requires
            counter_can_advance(old(self).default_name),
        ensures
            exists|t: Seq<char>|
                (old(self).default_name.enabled && old(self).default_name.mode is Timestamp ==> timestamp_shape(t)) && opt_text(r)
                    == #[trigger] default_name_for(old(self).default_name, t),
            final(self).default_name.mode == mode_after_naming(old(self).default_name),
            final(self).default_name.enabled == old(self).default_name.enabled,
            final(self).default_name.name == old(self).default_name.name,
            final(self).default_dir == old(self).default_dir,
            final(self).copy_on_clipboard == old(self).copy_on_clipboard,
    {
        let stamp = if self.default_name.enabled && matches!(self.default_name.mode, DefaultNameMode::Timestamp) {
            local_timestamp()
        } else {
            String::new()
        };
        let ghost t = stamp@;
        let r = self.next_default_name(stamp.as_str());
        assert(opt_text(r) == default_name_for(old(self).default_name, t));
        r
    }

    /// Replaces the default directory, if a default directory is enabled.
    pub fn set_default_directory(&mut self, dir: String)
        ensures
            old(self).default_dir.enabled ==> final(self).default_dir.path@ == dir@,
            !old(self).default_dir.enabled ==> final(self).default_dir.path == old(self).default_dir.path,
            final(self).default_dir.enabled == old(self).default_dir.enabled,
            final(self).default_name == old(self).default_name,
            final(self).copy_on_clipboard == old(self).copy_on_clipboard,
    {
        if self.default_dir.enabled {
            self.default_dir.path = dir;
        }
    }

    /// After the default name was edited (its former text was `former`), a
    /// counter starts again from zero.
    pub fn default_name_edited(&mut self, former: &String)
        ensures
            (old(self).default_name.name@ != former@ && old(self).default_name.mode is Counter)
                ==> final(self).default_name.mode == DefaultNameMode::Counter(0),
            !(old(self).default_name.name@ != former@ && old(self).default_name.mode is Counter)
                ==> final(self).default_name.mode == old(self).default_name.mode,
            final(self).default_name.enabled == old(self).default_name.enabled,
            final(self).default_name.name == old(self).default_name.name,
            final(self).default_dir == old(self).default_dir,
            final(self).copy_on_clipboard == old(self).copy_on_clipboard,
    {
        if !crate::text::same_text(self.default_name.name.as_str(), former.as_str()) {
            if let DefaultNameMode::Counter(_) = self.default_name.mode {
                self.default_name.mode = DefaultNameMode::Counter(0);
            }
        }
    }

    /// Whether the settings may be saved, given whether the default directory
    /// exists: an enabled default directory must be a non-empty existing path,
    /// and an enabled name-only default name must not be empty (a check that
    /// never fires, since the mode comparison never finds the name-only mode
    /// alike to itself).
    pub fn check_before_saving(&self, dir_exists: bool) -> (r: Result<(), &'static str>)
        ensures
            (self.default_dir.enabled && (self.default_dir.path@.len() == 0 || !dir_exists)) ==> (r
                matches Err(m) && m@ == "Invalid default directory path."@),
            !(self.default_dir.enabled && (self.default_dir.path@.len() == 0 || !dir_exists)) && (
            self.default_name.enabled && modes_alike(self.default_name.mode, DefaultNameMode::OnlyName)
                && self.default_name.name@.len() == 0) ==> (r matches Err(m) && m@
                == "Default name cannot be empty."@),
            r is Ok <==> !(self.default_dir.enabled && (self.default_dir.path@.len() == 0 || !dir_exists))
                && !(self.default_name.enabled && modes_alike(
                self.default_name.mode,
                DefaultNameMode::OnlyName,
            ) && self.default_name.name@.len() == 0),
            r is Ok <==> !(self.default_dir.enabled && (self.default_dir.path@.len() == 0 || !dir_exists)),
    {
        if self.default_dir.enabled && (self.default_dir.path.as_str().is_empty() || !dir_exists) {
            Err("Invalid default directory path.")
        } else if self.default_name.enabled && self.default_name.mode == DefaultNameMode::OnlyName
            && self.default_name.name.as_str().is_empty() {
            Err("Default name cannot be empty.")
        } else {
            Ok(())
        }
    }

    /// The buttons of a frame of the settings screen, given whether the
    /// default directory exists: the directory button asks for a directory
    /// dialog; Save reports the settings saved when they pass
    /// `check_before_saving`, and otherwise gives its message to alert with;
    /// Abort, handled last, reports the settings aborted.
    pub fn buttons_outcome(
        &self,
        dir_clicked: bool,
        save_clicked: bool,
        abort_clicked: bool,
        dir_exists: bool,
    ) -> (r: (SettingsEvent, Option<&'static str>))
        ensures
            r.0 == frame_event(*self, dir_clicked, save_clicked, abort_clicked, dir_exists),
            str_text(r.1) == frame_alert(*self, save_clicked, dir_exists),
    {
        let mut event = if dir_clicked {
            SettingsEvent::OpenDirectoryDialog
        } else {
            SettingsEvent::Nil
        };
        let mut alert = None;
        if save_clicked {
            match self.check_before_saving(dir_exists) {
                Ok(()) => {
                    event = SettingsEvent::Saved;
                },
                Err(m) => {
                    alert = Some(m);
                },
            }
        }
        if abort_clicked {
            event = SettingsEvent::Aborted;
        }
        (event, alert)
    }

    /// The buttons of a frame of the settings screen (see
    /// `buttons_outcome`); whether the default directory exists is looked up
    /// on disk when Save was clicked with a non-empty default directory
    /// enabled.
    pub fn update(&self, dir_clicked: bool, save_clicked: bool, abort_clicked: bool) -> (r: (
        SettingsEvent,
        Option<&'static str>,
    ))
        ensures
            exists|e: bool|
                r.0 == #[trigger] frame_event(*self, dir_clicked, save_clicked, abort_clicked, e)
                    && str_text(r.1) == frame_alert(*self, save_clicked, e),
            !save_clicked || !self.default_dir.enabled || self.default_dir.path@.len() == 0 ==> r.0
                == frame_event(*self, dir_clicked, save_clicked, abort_clicked, true) && str_text(r.1)
                == frame_alert(*self, save_clicked, true),
    {
        let exists = if save_clicked && self.default_dir.enabled && !self.default_dir.path.as_str().is_empty() {
            path_exists(self.default_dir.path.as_str())
        } else {
            true
        };
        let r = self.buttons_outcome(dir_clicked, save_clicked, abort_clicked, exists);
        assert(r.0 == frame_event(*self, dir_clicked, save_clicked, abort_clicked, exists));
        r
    }

    /// Decides how the output path of a screenshot in `format` is obtained,
    /// given whether the default directory exists on disk: consults the
    /// default directory and the default name (which moves a counter on) and
    /// picks the matching plan.
    pub fn compose_output_file_path_with(&mut self, format: ImageFormat, dir_exists: bool) -> (r:
        OutputPathPlan)
        requires
            counter_can_advance(old(self).default_name),
        ensures
            exists|t: Seq<char>|
                (old(self).default_name.enabled && old(self).default_name.mode is Timestamp ==> timestamp_shape(t)) && #[trigger] plan_for(
                    default_dir_for(old(self).default_dir, dir_exists),
                    default_name_for(old(self).default_name, t),
                    format,
                    r,
                ),
            final(self).default_name.mode == mode_after_naming(old(self).default_name),
            final(self).default_name.enabled == old(self).default_name.enabled,
            final(self).default_name.name == old(self).default_name.name,
            final(self).default_dir == old(self).default_dir,
            final(self).copy_on_clipboard == old(self).copy_on_clipboard,
    {
        let dd = self.default_dir_given(dir_exists);
        let dn = self.get_default_name();
        output_path_plan(dd, dn, format)
    }

    /// Decides how the output path of a screenshot in `format` is obtained:
    /// looks up on disk whether an enabled, non-empty default directory
    /// exists, then proceeds as `compose_output_file_path_with`. Whether the
    /// directory exists is the file system's answer, so the plan is stated
    /// for either answer.
    pub fn compose_output_file_path(&mut self, format: ImageFormat) -> (r: OutputPathPlan)
        requires
            counter_can_advance(old(self).default_name),
        ensures
            exists|e: bool, t: Seq<char>|
                (old(self).default_name.enabled && old(self).default_name.mode is Timestamp ==> timestamp_shape(t)) && #[trigger] plan_for(
                    default_dir_for(old(self).default_dir, e),
                    default_name_for(old(self).default_name, t),
                    format,
                    r,
                ),
            final(self).default_name.mode == mode_after_naming(old(self).default_name),
            final(self).default_name.enabled == old(self).default_name.enabled,
            final(self).default_name.name == old(self).default_name.name,
            final(self).default_dir == old(self).default_dir,
            final(self).copy_on_clipboard == old(self).copy_on_clipboard,
    {
        let dir_exists = self.default_dir.enabled && !self.default_dir.path.as_str().is_empty()
            && path_exists(self.default_dir.path.as_str());
        self.compose_output_file_path_with(format, dir_exists)
    }
}

/// Where a screenshot goes follows the default directory: when it is enabled,
/// not empty and present on disk, the file is written straight into it under
/// the default name (no dialog), or, without a default name, the save dialog
/// opens in it; when it is disabled, empty or missing, no plan writes
/// straight to a directory and the save dialog opens without a start
/// directory.
pub proof fn lemma_default_dir_decides_plan(
    dir: DefaultDir,
    dir_exists: bool,
    name: Option<Seq<char>>,
    format: ImageFormat,
    plan: OutputPathPlan,
)
    requires
        plan_for(default_dir_for(dir, dir_exists), name, format, plan),
    ensures
        dir.enabled && dir.path@.len() > 0 && dir_exists ==> {
            &&& name matches Some(n) ==> (plan matches OutputPathPlan::Direct { dir: d, name: pn, .. }
                && d@ == dir.path@ && pn@ == n)
            &&& name is None ==> (plan matches OutputPathPlan::SaveDialog { start_dir: Some(s), .. }
                && s@ == dir.path@)
        },
        !(dir.enabled && dir.path@.len() > 0 && dir_exists) ==> {
            &&& !(plan is Direct)
            &&& name matches Some(n) ==> (plan matches OutputPathPlan::PickDirectory { name: pn, .. }
                && pn@ == n)
            &&& name is None ==> (plan matches OutputPathPlan::SaveDialog { start_dir: None, .. })
        },
{
}

/// The plan for the given default directory and default name.
pub fn output_path_plan(dir: Option<String>, name: Option<String>, format: ImageFormat) -> (r:
    OutputPathPlan)
    ensures
        plan_for(opt_text(dir), opt_text(name), format, r),
{
    let extension = format.name();
    match (dir, name) {
        (Some(d), Some(n)) => OutputPathPlan::Direct { dir: d, name: n, extension },
        (None, Some(n)) => OutputPathPlan::PickDirectory { name: n, extension },
        (d, None) => OutputPathPlan::SaveDialog { start_dir: d, extension },
    }
}

} // verus!
