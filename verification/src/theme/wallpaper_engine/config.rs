//! The wallpaper manager's own settings, and the theme that they amount to.

use crate::error::{Error, UnhandledError};
use crate::path::{file_name, join, parent, path_file_name, path_join, path_parent};
use crate::text::{
    contains, decimal_of, joined, parse_decimal, parse_decimal_spec, starts_with, str_contains,
    strip_prefix, u32_to_string,
};
use crate::theme::wallpaper_engine::apply::{ThemeWEWallpaper, ThemeWallpaperEngine};
use crate::theme::wallpaper_engine::{Wallpaper, WallpaperEngine, WallpaperKind, WallpaperView};
use serde_json::Error as JsonError;
use serde_json::Value;
use vstd::prelude::*;

verus! {

#[verifier::external_type_specification]
#[verifier::external_body]
pub struct ExValue(Value);

/// The text that `serde_json` reads from a document that is one JSON string,
/// or none where the document is not one.
pub uninterp spec fn json_text(document: Seq<char>) -> Option<Seq<char>>;

/// Calls `serde_json::from_str` for a `String`: the document is read as one
/// JSON string, escapes resolved. What comes back depends on the document
/// alone, and is `json_text` of it.
#[verifier::external_body]
fn read_json_string(document: &str) -> (r: Option<String>)
    ensures
        r is Some <==> json_text(document@) is Some,
        r matches Some(text) ==> json_text(document@) == Some(text@),
{
    match serde_json::from_str::<String>(document) {
        Ok(text) => Some(text),
        Err(_) => None,
    }
}

/// Calls `serde::de::Error::custom` for `serde_json::Error`: a failure of
/// reading JSON that carries `message`. Nothing is claimed of it.
#[verifier::external_body]
fn json_failure(message: &str) -> JsonError {
    <JsonError as serde::de::Error>::custom(message)
}

/// The settings of the wallpaper manager: where it is installed, and the
/// settings of each user by the user's name, in the order in which they were
/// read. Settings that are well formed name no user twice.
#[derive(Debug)]
pub struct WallpaperEngineConfig {
    pub path: String,
    pub users: Vec<(String, WallpaperEngineUserConfig)>,
}

/// The settings of one user.
#[derive(Debug)]
pub struct WallpaperEngineUserConfig {
    pub general: WallpaperEngineUserGeneralConfig,
}

/// The general part of a user's settings.
#[derive(Debug)]
pub struct WallpaperEngineUserGeneralConfig {
    pub wallpaper_config: Option<UserWallpaperConfig>,
}

/// The wallpapers that a user has chosen, by monitor, in the order in which
/// they were read. A choice that is well formed names no monitor twice.
#[derive(Debug)]
pub struct UserWallpaperConfig {
    pub layout: u32,
    pub selected_wallpapers: Vec<(UserWallpaperConfigMonitorId, UserWallpaperConfigForMonitor)>,
}

/// What a user has chosen for one monitor: the project file of a wallpaper
/// and, where a playlist runs, the playlist.
#[derive(Debug)]
pub struct UserWallpaperConfigForMonitor {
    pub file: String,
    pub playlist: Option<Value>,
}

/// The number of a monitor. In the settings it is written `Monitor<number>`.
#[derive(Clone, Copy, Debug, PartialEq, Eq, Hash, Structural)]
pub struct UserWallpaperConfigMonitorId(pub u32);

/// No name occurs twice among `users`.
pub open spec fn distinct_users(users: Seq<(String, WallpaperEngineUserConfig)>) -> bool {
    forall|i: int, j: int|
        0 <= i < j < users.len() ==> (#[trigger] users[i]).0@ != (#[trigger] users[j]).0@
}

/// No monitor occurs twice among `selected`.
pub open spec fn distinct_monitors(
    selected: Seq<(UserWallpaperConfigMonitorId, UserWallpaperConfigForMonitor)>,
) -> bool {
    forall|i: int, j: int|
        0 <= i < j < selected.len() ==> (#[trigger] selected[i]).0.0 != (#[trigger] selected[j]).0.0
}

impl UserWallpaperConfig {
    /// No monitor has two choices.
    pub open spec fn well_formed(self) -> bool {
        distinct_monitors(self.selected_wallpapers@)
    }

    /// Whether no monitor has two choices.
    pub fn is_well_formed(&self) -> (r: bool)
        ensures
            r == self.well_formed(),
    {
        let selected = &self.selected_wallpapers;
        let mut j: usize = 0;
        while j < selected.len()
            invariant
                j <= selected.len(),
                selected == &self.selected_wallpapers,
                forall|a: int, b: int|
                    0 <= a < b < j ==> (#[trigger] selected@[a]).0.0 != (#[trigger] selected@[b]).0.0,
            decreases selected.len() - j,
        {
            let mut i: usize = 0;
            while i < j
                invariant
                    i <= j < selected.len(),
                    selected == &self.selected_wallpapers,
                    forall|a: int| 0 <= a < i ==> (#[trigger] selected@[a]).0.0 != selected@[j as int].0.0,
                decreases j - i,
            {
                if selected[i].0.0 == selected[j].0.0 {
                    return false;
                }
                i += 1;
            }
            j += 1;
        }
        true
    }
}

impl WallpaperEngineUserConfig {
    /// The user's choice of wallpapers, where there is one, is well formed.
    pub open spec fn well_formed(self) -> bool {
        self.general.wallpaper_config matches Some(config) ==> config.well_formed()
    }

    /// Whether the user's choice of wallpapers is well formed.
    pub fn is_well_formed(&self) -> (r: bool)
        ensures
            r == self.well_formed(),
    {
        match &self.general.wallpaper_config {
            Some(config) => config.is_well_formed(),
            None => true,
        }
    }
}

impl WallpaperEngineConfig {
    /// No user is named twice, and each user's settings are well formed.
    pub open spec fn well_formed(self) -> bool {
        &&& distinct_users(self.users@)
        &&& forall|i: int| 0 <= i < self.users@.len() ==> (#[trigger] self.users@[i]).1.well_formed()
    }

    /// Whether the settings are well formed.
    pub fn is_well_formed(&self) -> (r: bool)
        ensures
            r == self.well_formed(),
    {
        let mut j: usize = 0;
        while j < self.users.len()
            invariant
                j <= self.users.len(),
                forall|a: int, b: int|
                    0 <= a < b < j ==> (#[trigger] self.users@[a]).0@ != (#[trigger] self.users@[b]).0@,
                forall|a: int| 0 <= a < j ==> (#[trigger] self.users@[a]).1.well_formed(),
            decreases self.users.len() - j,
        {
            if !self.users[j].1.is_well_formed() {
                return false;
            }
            let mut i: usize = 0;
            while i < j
                invariant
                    i <= j < self.users.len(),
                    forall|a: int| 0 <= a < i ==> (#[trigger] self.users@[a]).0@ != self.users@[j as int].0@,
                decreases j - i,
            {
                if self.users[i].0 == self.users[j].0 {
                    return false;
                }
                i += 1;
            }
            j += 1;
        }
        true
    }
}

/// Why a text does not name a monitor.
#[derive(Clone, Copy, Debug, PartialEq, Eq, Structural)]
pub enum MonitorIdError {
    /// The text does not begin with `Monitor`.
    MissingPrefix,
    /// What follows `Monitor` is no number that fits.
    NotANumber,
}

/// What every name of a monitor begins with.
pub open spec fn monitor_prefix() -> Seq<char> {
    "Monitor"@
}

impl MonitorIdError {
    pub open spec fn spec_message(self) -> Seq<char> {
        match self {
            MonitorIdError::MissingPrefix => "Expected string to start with 'Monitor'"@,
            MonitorIdError::NotANumber => "Expected Monitor followed by a number"@,
        }
    }

    /// What is wrong, in a sentence.
    pub fn message(&self) -> (r: &'static str)
        ensures
            r@ == self.spec_message(),
    {
        match self {
            MonitorIdError::MissingPrefix => "Expected string to start with 'Monitor'",
            MonitorIdError::NotANumber => "Expected Monitor followed by a number",
        }
    }

    /// The failure as one of reading the settings: it ends the run.
    pub fn into_error(self) -> (r: Error)
        ensures
            r matches Error::UnhandledError(UnhandledError::SerdeJSON(_)),
    {
        Error::UnhandledError(UnhandledError::SerdeJSON(json_failure(self.message())))
    }
}

impl UserWallpaperConfigMonitorId {
    /// The monitor that `value` names: `Monitor`, spelt so, followed by the
    /// monitor's number in decimal digits and nothing else: no sign, no
    /// space, and a value that fits.
    pub open spec fn spec_deserialize(value: Seq<char>) -> Result<
        UserWallpaperConfigMonitorId,
        MonitorIdError,
    > {
        if !starts_with(value, monitor_prefix()) {
            Err(MonitorIdError::MissingPrefix)
        } else {
            match parse_decimal_spec(value.skip(monitor_prefix().len() as int)) {
                Some(number) => Ok(UserWallpaperConfigMonitorId(number)),
                None => Err(MonitorIdError::NotANumber),
            }
        }
    }

    /// The name of the monitor: `Monitor` and its number in decimal.
    pub open spec fn spec_serialize(self) -> Seq<char> {
        monitor_prefix() + decimal_of(self.0 as nat)
    }

    /// The monitor that `value` names.
    pub fn deserialize(value: &str) -> (r: Result<UserWallpaperConfigMonitorId, MonitorIdError>)
        ensures
            r == Self::spec_deserialize(value@),
    {
        match strip_prefix(value, "Monitor") {
            Some(suffix) => match parse_decimal(suffix.as_str()) {
                Some(number) => Ok(UserWallpaperConfigMonitorId(number)),
                None => Err(MonitorIdError::NotANumber),
            },
            None => Err(MonitorIdError::MissingPrefix),
        }
    }

    /// The monitor that `value` names; a text that names none is a failure
    /// of reading the settings.
    pub fn parse(value: &str) -> (r: Result<UserWallpaperConfigMonitorId, Error>)
        ensures
            match Self::spec_deserialize(value@) {
                Ok(id) => r matches Ok(found) && found == id,
                Err(_) => r matches Err(Error::UnhandledError(UnhandledError::SerdeJSON(_))),
            },
    {
        match Self::deserialize(value) {
            Ok(id) => Ok(id),
            Err(e) => Err(e.into_error()),
        }
    }

    /// The name of the monitor.
    pub fn serialize(&self) -> (r: String)
        ensures
            r@ == self.spec_serialize(),
    {
        let number = u32_to_string(self.0);
        joined("Monitor", number.as_str())
    }

    /// The name of a monitor names that monitor.
    pub proof fn lemma_round_trip(id: UserWallpaperConfigMonitorId)
        ensures
            Self::spec_deserialize(id.spec_serialize()) == Ok::<
                UserWallpaperConfigMonitorId,
                MonitorIdError,
            >(id),
    {
        let name = id.spec_serialize();
        let digits = decimal_of(id.0 as nat);
        assert(name.subrange(0, monitor_prefix().len() as int) =~= monitor_prefix());
        assert(name.skip(monitor_prefix().len() as int) =~= digits);
        crate::text::lemma_parse_decimal_round_trip(id.0);
    }
}

/// A JSON document that is the string `name`, where `name` needs no escapes.
pub open spec fn quoted(name: Seq<char>) -> Seq<char> {
    "\""@ + name + "\""@
}

impl WallpaperKind {
    /// The store whose folder is `path`. A path that holds `workshop`
    /// anywhere is the workshop's. Any other is that of the local store that
    /// the folder is named after, the name read as a JSON string; where the
    /// path ends in no name, or the name is that of no store, it is no
    /// store's.
    pub open spec fn spec_from_path(path: Seq<char>) -> Option<WallpaperKind> {
        if contains(path, "workshop"@) {
            Some(WallpaperKind::Workshop)
        } else {
            match path_file_name(path) {
                None => None,
                Some(name) => match json_text(quoted(name)) {
                    None => None,
                    Some(text) => Self::spec_from_name(text),
                },
            }
        }
    }

    /// The store whose folder is `path`, if it is one's.
    pub fn from_path(path: &str) -> (r: Option<WallpaperKind>)
        ensures
            r == Self::spec_from_path(path@),
    {
        if str_contains(path, "workshop") {
            return Some(WallpaperKind::Workshop);
        }
        let name = match file_name(path) {
            Some(name) => name,
            None => {
                return None;
            },
        };
        let mut document = joined("\"", name.as_str());
        document.append("\"");
        match read_json_string(document.as_str()) {
            Some(text) => Self::from_name(text.as_str()),
            None => None,
        }
    }
}

impl Wallpaper {
    /// The wallpaper whose project file is `file`: its identifier is the
    /// name of the folder that holds the file, and its store is the one whose
    /// folder holds that folder. This reads back the project files that
    /// `spec_wallpaper_path` builds.
    pub open spec fn spec_from_path(file: Seq<char>) -> Option<WallpaperView> {
        match path_parent(file) {
            None => None,
            Some(folder) => match path_file_name(folder) {
                None => None,
                Some(id) => match path_parent(folder) {
                    None => None,
                    Some(store) => match WallpaperKind::spec_from_path(store) {
                        None => None,
                        Some(kind) => Some(WallpaperView { id, kind }),
                    },
                },
            },
        }
    }

    /// The wallpaper whose project file is `file`, where the path leads to
    /// one.
    pub fn from_path(file: &str) -> (r: Option<Wallpaper>)
        ensures
            r is Some <==> Self::spec_from_path(file@) is Some,
            r matches Some(wallpaper) ==> Some(wallpaper@) == Self::spec_from_path(file@),
    {
        let folder = match parent(file) {
            Some(folder) => folder,
            None => {
                return None;
            },
        };
        let id = match file_name(folder.as_str()) {
            Some(id) => id,
            None => {
                return None;
            },
        };
        let store = match parent(folder.as_str()) {
            Some(store) => store,
            None => {
                return None;
            },
        };
        match WallpaperKind::from_path(store.as_str()) {
            Some(kind) => Some(Wallpaper { id, kind }),
            None => None,
        }
    }
}

/// The wallpaper on a monitor that one entry of a user's settings amounts to:
/// none where a playlist runs on the monitor, or where the file leads to no
/// wallpaper.
pub open spec fn assignment_of(
    entry: (UserWallpaperConfigMonitorId, UserWallpaperConfigForMonitor),
) -> Option<(WallpaperView, u32)> {
    if entry.1.playlist is Some {
        None
    } else {
        match Wallpaper::spec_from_path(entry.1.file@) {
            Some(wallpaper) => Some((wallpaper, entry.0.0)),
            None => None,
        }
    }
}

/// The wallpapers and monitors of a sequence of assignments.
pub open spec fn assignments_view(wallpapers: Seq<ThemeWEWallpaper>) -> Seq<(WallpaperView, u32)> {
    Seq::new(wallpapers.len(), |i: int| (wallpapers[i].wallpaper@, wallpapers[i].monitor))
}

impl WallpaperEngineUserConfig {
    /// Whether these settings amount to a theme: they hold the user's choice
    /// of wallpapers, and every entry of it amounts to a wallpaper.
    pub open spec fn is_theme(self) -> bool {
        &&& self.general.wallpaper_config is Some
        &&& forall|i: int|
            0 <= i < self.general.wallpaper_config->0.selected_wallpapers@.len()
                ==> assignment_of(
                #[trigger] self.general.wallpaper_config->0.selected_wallpapers@[i],
            ) is Some
    }

    /// The wallpapers of the theme that these settings amount to, in the
    /// order of the entries.
    pub open spec fn theme_assignments(self) -> Seq<(WallpaperView, u32)>
        recommends
            self.is_theme(),
    {
        let selected = self.general.wallpaper_config->0.selected_wallpapers@;
        Seq::new(selected.len(), |i: int| assignment_of(selected[i])->0)
    }
}

impl ThemeWallpaperEngine {
    /// No monitor is assigned two wallpapers.
    pub open spec fn one_per_monitor(self) -> bool {
        forall|i: int, j: int|
            0 <= i < j < self.assignments().len() ==> (#[trigger] self.assignments()[i]).monitor
                != (#[trigger] self.assignments()[j]).monitor
    }

    /// The theme that a user's settings amount to: one wallpaper for each
    /// entry, in the order of the entries, and no list at all where there is
    /// no entry. Settings that do not amount to a theme give none. The theme
    /// of well-formed settings assigns no monitor two wallpapers.
    pub fn from_config(value: &WallpaperEngineUserConfig) -> (r: Option<ThemeWallpaperEngine>)
        ensures
            r is Some <==> value.is_theme(),
            r matches Some(theme) ==> {
                &&& theme.playlist is None
                &&& theme.wallpapers is Some <==> value.theme_assignments().len() > 0
                &&& assignments_view(theme.assignments()) == value.theme_assignments()
                &&& value.well_formed() ==> theme.one_per_monitor()
            },
    {
        let config = match &value.general.wallpaper_config {
            Some(config) => config,
            None => {
                return None;
            },
        };
        let selected = &config.selected_wallpapers;
        let mut wallpapers: Vec<ThemeWEWallpaper> = Vec::new();
        let mut i: usize = 0;
        while i < selected.len()
            invariant
                i <= selected.len(),
                value.general.wallpaper_config == Some(*config),
                selected == &config.selected_wallpapers,
                wallpapers@.len() == i,
                forall|j: int|
                    0 <= j < i ==> assignment_of(#[trigger] selected@[j]) == Some(
                        (wallpapers@[j].wallpaper@, wallpapers@[j].monitor),
                    ),
            decreases selected.len() - i,
        {
            let entry = &selected[i];
            if entry.1.playlist.is_some() {
                assert(assignment_of(selected@[i as int]) is None);
                return None;
            }
            match Wallpaper::from_path(entry.1.file.as_str()) {
                Some(wallpaper) => {
                    wallpapers.push(ThemeWEWallpaper { wallpaper, monitor: entry.0.0 });
                },
                None => {
                    assert(assignment_of(selected@[i as int]) is None);
                    return None;
                },
            }
            i += 1;
        }
        assert(value.is_theme());
        assert(assignments_view(wallpapers@) =~= value.theme_assignments());
        assert(value.well_formed() ==> forall|a: int, b: int|
            0 <= a < b < wallpapers@.len() ==> (#[trigger] wallpapers@[a]).monitor != (
            #[trigger] wallpapers@[b]).monitor) by {
            if value.well_formed() {
                assert forall|a: int, b: int| 0 <= a < b < wallpapers@.len() implies (
                #[trigger] wallpapers@[a]).monitor != (#[trigger] wallpapers@[b]).monitor by {
                    assert(assignment_of(selected@[a]) is Some);
                    assert(assignment_of(selected@[b]) is Some);
                    assert(selected@[a].0.0 != selected@[b].0.0);
                }
            }
        }
        if wallpapers.len() != 0 {
            Some(ThemeWallpaperEngine { wallpapers: Some(wallpapers), playlist: None })
        } else {
            Some(ThemeWallpaperEngine { wallpapers: None, playlist: None })
        }
    }
}

/// The first of `users` that is named `name`.
pub open spec fn find_user(
    users: Seq<(String, WallpaperEngineUserConfig)>,
    name: Seq<char>,
) -> Option<WallpaperEngineUserConfig>
    decreases users.len(),
{
    if users.len() == 0 {
        None
    } else if users.first().0@ == name {
        Some(users.first().1)
    } else {
        find_user(users.drop_first(), name)
    }
}

/// Where no user is named twice, the settings of a user are those of the one
/// entry that bears the user's name.
pub proof fn lemma_find_user_is_the_entry(
    users: Seq<(String, WallpaperEngineUserConfig)>,
    name: Seq<char>,
    i: int,
)
    requires
        distinct_users(users),
        0 <= i < users.len(),
        users[i].0@ == name,
    ensures
        find_user(users, name) == Some(users[i].1),
    decreases users.len(),
{
    if users.first().0@ == name {
        if i > 0 {
            assert(users[0].0@ != users[i].0@);
        }
    } else {
        let rest = users.drop_first();
        assert(rest[i - 1] == users[i]);
        assert forall|a: int, b: int| 0 <= a < b < rest.len() implies (#[trigger] rest[a]).0@ != (
        #[trigger] rest[b]).0@ by {
            assert(rest[a] == users[a + 1]);
            assert(rest[b] == users[b + 1]);
        }
        lemma_find_user_is_the_entry(rest, name, i - 1);
    }
}

/// The settings that are found for a user are those of an entry that bears
/// the user's name.
pub proof fn lemma_found_user_is_an_entry(
    users: Seq<(String, WallpaperEngineUserConfig)>,
    name: Seq<char>,
)
    ensures
        find_user(users, name) matches Some(found) ==> exists|i: int|
            0 <= i < users.len() && (#[trigger] users[i]).0@ == name && users[i].1 == found,
    decreases users.len(),
{
    if users.len() == 0 {
    } else if users.first().0@ == name {
        assert(users[0].0@ == name && users[0].1 == users.first().1);
    } else {
        let rest = users.drop_first();
        lemma_found_user_is_an_entry(rest, name);
        if find_user(rest, name) is Some {
            let found = find_user(rest, name)->0;
            let i = choose|i: int|
                0 <= i < rest.len() && (#[trigger] rest[i]).0@ == name && rest[i].1 == found;
            assert(users[i + 1] == rest[i]);
        }
    }
}

/// The name of the user whose desktop folder is `desktop_dir`: the name of
/// the folder that holds the desktop folder.
pub open spec fn user_of_desktop(desktop_dir: Seq<char>) -> Option<Seq<char>> {
    match path_parent(desktop_dir) {
        Some(home) => path_file_name(home),
        None => None,
    }
}

impl WallpaperEngineConfig {
    /// The settings of the user whose desktop folder is `desktop_dir`, where
    /// there is such a folder and the settings know that user.
    pub open spec fn spec_current_user_config(self, desktop_dir: Option<Seq<char>>) -> Option<
        WallpaperEngineUserConfig,
    > {
        match desktop_dir {
            None => None,
            Some(desktop) => match user_of_desktop(desktop) {
                None => None,
                Some(name) => find_user(self.users@, name),
            },
        }
    }

    /// The settings of the user named `name`: those of the first entry that
    /// bears the name. Where no user is named twice, they are those of the
    /// one entry that bears it; and the settings found in well-formed
    /// settings are well formed.
    pub fn get_user_config(&self, name: &str) -> (r: Option<&WallpaperEngineUserConfig>)
        ensures
            r is Some <==> find_user(self.users@, name@) is Some,
            r matches Some(found) ==> Some(*found) == find_user(self.users@, name@),
            distinct_users(self.users@) ==> forall|i: int|
                0 <= i < self.users@.len() && (#[trigger] self.users@[i]).0@ == name@ ==> (r matches Some(
                    found,
                ) && *found == self.users@[i].1),
            self.well_formed() ==> (r matches Some(found) ==> found.well_formed()),
    {
        let r = self.first_named(name);
        proof {
            if distinct_users(self.users@) {
                assert forall|i: int|
                    0 <= i < self.users@.len() && (#[trigger] self.users@[i]).0@
                        == name@ implies find_user(self.users@, name@) == Some(self.users@[i].1) by {
                    lemma_find_user_is_the_entry(self.users@, name@, i);
                }
            }
            lemma_found_user_is_an_entry(self.users@, name@);
        }
        r
    }

    fn first_named(&self, name: &str) -> (r: Option<&WallpaperEngineUserConfig>)
        ensures
            r is Some <==> find_user(self.users@, name@) is Some,
            r matches Some(found) ==> Some(*found) == find_user(self.users@, name@),
    {
        let wanted = name.to_owned();
        let mut i: usize = 0;
        assert(self.users@.skip(0) =~= self.users@);
        while i < self.users.len()
            invariant
                i <= self.users.len(),
                wanted@ == name@,
                find_user(self.users@, name@) == find_user(self.users@.skip(i as int), name@),
            decreases self.users.len() - i,
        {
            let ghost rest = self.users@.skip(i as int);
            assert(rest.first() == self.users@[i as int]);
            assert(rest.drop_first() =~= self.users@.skip(i + 1));
            if self.users[i].0 == wanted {
                return Some(&self.users[i].1);
            }
            i += 1;
        }
        None
    }

    /// The settings of the user whose desktop folder is `desktop_dir`.
    pub fn get_current_user_config(&self, desktop_dir: Option<&str>) -> (r: Option<
        &WallpaperEngineUserConfig,
    >)
        ensures
            ({
                let expected = self.spec_current_user_config(
                    match desktop_dir {
                        Some(dir) => Some(dir@),
                        None => None,
                    },
                );
                &&& r is Some <==> expected is Some
                &&& r matches Some(found) ==> Some(*found) == expected
            }),
            self.well_formed() ==> (r matches Some(found) ==> found.well_formed()),
    {
        let desktop = match desktop_dir {
            Some(desktop) => desktop,
            None => {
                return None;
            },
        };
        let home = match parent(desktop) {
            Some(home) => home,
            None => {
                return None;
            },
        };
        match file_name(home.as_str()) {
            Some(name) => self.get_user_config(name.as_str()),
            None => None,
        }
    }
}

impl WallpaperEngine {
    /// Where the manager keeps its settings.
    pub fn get_config_path(&self) -> (r: String)
        ensures
            r@ == path_join(self.path@, "config.json"@),
    {
        join(self.path.as_str(), "config.json")
    }
}

impl ThemeWallpaperEngine {
    /// The theme that the manager's settings amount to for the user whose
    /// desktop folder is `desktop_dir`; none where the settings do not know
    /// the user or do not amount to a theme. The theme of well-formed
    /// settings assigns no monitor two wallpapers.
    pub fn get_current(config: &WallpaperEngineConfig, desktop_dir: Option<&str>) -> (r: Option<
        ThemeWallpaperEngine,
    >)
        ensures
            ({
                let user = config.spec_current_user_config(
                    match desktop_dir {
                        Some(dir) => Some(dir@),
                        None => None,
                    },
                );
                &&& r is Some <==> user is Some && user->0.is_theme()
                &&& r matches Some(theme) ==> {
                    &&& theme.playlist is None
                    &&& theme.wallpapers is Some <==> user->0.theme_assignments().len() > 0
                    &&& assignments_view(theme.assignments()) == user->0.theme_assignments()
                    &&& config.well_formed() ==> theme.one_per_monitor()
                }
            }),
    {
        match config.get_current_user_config(desktop_dir) {
            Some(user) => Self::from_config(user),
            None => None,
        }
    }
}

} // verus!
