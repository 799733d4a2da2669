//! The configuration: key bindings as they are written in the configuration
//! file, the bindings written out by default, and the order in which the
//! places of the file are tried.

use vstd::prelude::*;
use crate::bindings::{lists, Binding, KeyBindings, KeyCombo};
use crate::keymap::{format_key_spec, format_key_string, parse_key_spec, parse_key_string};
use crate::text::{push_str, string_from_chars};
use crate::types::KeyStatus;

verus! {

/// An argument to the action of a binding.
#[derive(Clone, Copy, Debug, PartialEq, Eq, Structural)]
pub enum ActionArgument {
    Value(u8),
    Enable(bool),
}

/// One binding as the configuration file writes it.
#[derive(Debug)]
pub struct KeymapConfig {
    /// The key combination, in its textual form.
    pub on: String,
    /// The status that the combination stands for.
    pub run: KeyStatus,
    /// An argument to the action, if it takes one.
    pub argument: Option<ActionArgument>,
    /// What the binding is for, in words.
    pub desc: Option<String>,
}

/// What a binding of the configuration file holds.
pub struct KeymapEntry {
    pub on: Seq<char>,
    pub run: KeyStatus,
    pub argument: Option<ActionArgument>,
    pub desc: Option<Seq<char>>,
}

impl View for KeymapConfig {
    type V = KeymapEntry;

    open spec fn view(&self) -> KeymapEntry {
        KeymapEntry {
            on: self.on@,
            run: self.run,
            argument: self.argument,
            desc: match self.desc {
                Some(text) => Some(text@),
                None => None,
            },
        }
    }
}

impl Default for KeymapConfig {
    fn default() -> (config: KeymapConfig)
        ensures
            config@ == (KeymapEntry {
                on: Seq::<char>::empty(),
                run: KeyStatus::NoOp,
                argument: None,
                desc: None,
            }),
    {
        KeymapConfig { on: String::new(), run: KeyStatus::NoOp, argument: None, desc: None }
    }
}

/// The bindings of a configuration file, in the order of the file.
#[derive(Debug)]
pub struct Keymaps {
    pub configs: Vec<KeymapConfig>,
}

impl View for Keymaps {
    type V = Seq<KeymapEntry>;

    open spec fn view(&self) -> Seq<KeymapEntry> {
        Seq::new(self.configs@.len(), |i: int| self.configs@[i]@)
    }
}

impl Default for Keymaps {
    fn default() -> (keymaps: Keymaps)
        ensures
            keymaps@ == Seq::<KeymapEntry>::empty(),
    {
        let keymaps = Keymaps { configs: Vec::new() };
        assert(keymaps@ =~= Seq::<KeymapEntry>::empty());
        keymaps
    }
}

/// Whether the combination of every written binding can be read.
pub open spec fn all_readable(entries: Seq<KeymapEntry>) -> bool {
    forall|i: int| 0 <= i < entries.len() ==> parse_key_spec((#[trigger] entries[i]).on) is Some
}

/// The key map that a list of written bindings stands for, all of whose
/// combinations can be read; of two entries for one combination the later
/// one counts.
pub open spec fn entries_bindings(entries: Seq<KeymapEntry>) -> Map<KeyCombo, KeyStatus>
    recommends
        all_readable(entries),
    decreases entries.len(),
{
    if entries.len() == 0 {
        Map::empty()
    } else {
        entries_bindings(entries.drop_last()).insert(
            parse_key_spec(entries.last().on)->0,
            entries.last().run,
        )
    }
}

/// Whether the entry at `at` is the first whose combination cannot be read.
pub open spec fn is_first_unreadable(entries: Seq<KeymapEntry>, at: int) -> bool {
    &&& 0 <= at < entries.len()
    &&& parse_key_spec(entries[at].on) is None
    &&& all_readable(entries.take(at))
}

/// A binding of a key map as the configuration file writes it: the
/// combination in canonical form, no argument, no description.
pub open spec fn binding_entry(binding: Binding) -> KeymapEntry {
    KeymapEntry {
        on: format_key_spec(binding.code, binding.modifiers),
        run: binding.status,
        argument: None,
        desc: None,
    }
}

/// One written binding.
pub open spec fn entry(
    on: Seq<char>,
    run: KeyStatus,
    argument: Option<ActionArgument>,
    desc: Seq<char>,
) -> KeymapEntry {
    KeymapEntry { on, run, argument, desc: Some(desc) }
}

/// Whether the entries are the bindings of the key map written out, one
/// entry for each bound combination, in some order.
pub open spec fn writes_out(entries: Seq<KeymapEntry>, map: Map<KeyCombo, KeyStatus>) -> bool {
    exists|order: Seq<Binding>| #[trigger]
        lists(order, map) && entries == Seq::new(order.len(), |i: int| binding_entry(order[i]))
}

/// The bindings that are written out where no configuration file exists.
pub open spec fn default_keymap_entries() -> Seq<KeymapEntry> {
    let ten = Some(ActionArgument::Value(10));
    seq![
        entry("q"@, KeyStatus::Quit, None, "退出程序"@),
        entry("+"@, KeyStatus::VolumeIncrease, ten, "音量增加 10"@),
        entry("-"@, KeyStatus::VolumeDecrease, ten, "音量减少 10"@),
        entry("L"@, KeyStatus::NavbarNext, None, "下一个选项"@),
        entry("H"@, KeyStatus::NavbarPrev, None, "上一个选项"@),
        entry("j"@, KeyStatus::PickerNext, None, "下一个选项"@),
        entry("k"@, KeyStatus::PickerPrev, None, "上一个选项"@),
        entry("]"@, KeyStatus::NextTrack, None, "上一首"@),
        entry("["@, KeyStatus::PrevTrack, None, "下一首"@),
        entry("m"@, KeyStatus::SwitchMode, None, "切换模式"@),
        entry("l"@, KeyStatus::ProgressIncrease, ten, "进度增加 10s"@),
        entry("h"@, KeyStatus::ProgressDecrease, ten, "进度减少 10s"@),
        entry("<enter>"@, KeyStatus::PlaySelected, None, "播放选中的"@),
        entry("p"@, KeyStatus::TogglePlay, None, "切换播放"@),
    ]
}

fn written(on: &str, run: KeyStatus, argument: Option<ActionArgument>, desc: &str) -> (config:
    KeymapConfig)
    ensures
        config@ == entry(on@, run, argument, desc@),
{
    KeymapConfig { on: on.to_owned(), run, argument, desc: Some(desc.to_owned()) }
}

impl Keymaps {
    /// The key map that these bindings stand for. A combination that cannot
    /// be read is an error: the text of the first such combination comes
    /// back, so that it can be named to the user, and no key map.
    pub fn checked_bindings(&self) -> (checked: Result<KeyBindings, String>)
        ensures
            match checked {
                Ok(bindings) => bindings@ == entries_bindings(self@) && all_readable(self@),
                Err(text) => exists|at: int|
                    #[trigger] is_first_unreadable(self@, at) && self@[at].on == text@,
            },
    {
        let mut bindings = KeyBindings::new();
        let mut i: usize = 0;
        assert(self@.take(0) =~= Seq::<KeymapEntry>::empty());
        while i < self.configs.len()
            invariant
                i <= self.configs@.len(),
                bindings@ == entries_bindings(self@.take(i as int)),
                all_readable(self@.take(i as int)),
            decreases self.configs@.len() - i,
        {
            let config = &self.configs[i];
            proof {
                let next = self@.take(i + 1);
                assert(next.drop_last() =~= self@.take(i as int));
                assert(next.last() == config@);
                assert(self@[i as int] == config@);
            }
            match parse_key_string(config.on.as_str()) {
                Some(combo) => {
                    bindings.insert(combo.0, combo.1, config.run);
                },
                None => {
                    assert(is_first_unreadable(self@, i as int));
                    return Err(config.on.clone());
                },
            }
            proof {
                let next = self@.take(i + 1);
                assert forall|j: int| 0 <= j < next.len() implies parse_key_spec(
                    (#[trigger] next[j]).on,
                ) is Some by {
                    if j < i {
                        assert(next[j] == self@.take(i as int)[j]);
                    }
                }
            }
            i += 1;
        }
        assert(self@.take(self.configs@.len() as int) =~= self@);
        Ok(bindings)
    }

    /// The bindings of a key map as the configuration file writes them, one
    /// entry for each bound combination, in the order in which the key map
    /// hands them out.
    pub fn from_bindings(bindings: &KeyBindings) -> (keymaps: Keymaps)
        ensures
            writes_out(keymaps@, bindings@),
    {
        let list = bindings.to_vec();
        let mut configs: Vec<KeymapConfig> = Vec::new();
        let mut i: usize = 0;
        while i < list.len()
            invariant
                i <= list@.len(),
                configs@.len() == i,
                forall|j: int| 0 <= j < i ==> (#[trigger] configs@[j])@ == binding_entry(list@[j]),
            decreases list@.len() - i,
        {
            let binding = list[i];
            configs.push(
                KeymapConfig {
                    on: format_key_string(binding.code, binding.modifiers),
                    run: binding.status,
                    argument: None,
                    desc: None,
                },
            );
            i += 1;
        }
        let keymaps = Keymaps { configs };
        assert(keymaps@ =~= Seq::new(list@.len(), |i: int| binding_entry(list@[i])));
        assert(lists(list@, bindings@));
        keymaps
    }

    /// The bindings that are written out where no configuration file exists.
    pub fn default_keymaps() -> (keymaps: Keymaps)
        ensures
            keymaps@ == default_keymap_entries(),
    {
        let ten = Some(ActionArgument::Value(10));
        let mut configs: Vec<KeymapConfig> = Vec::new();
        configs.push(written("q", KeyStatus::Quit, None, "退出程序"));
        configs.push(written("+", KeyStatus::VolumeIncrease, ten, "音量增加 10"));
        configs.push(written("-", KeyStatus::VolumeDecrease, ten, "音量减少 10"));
        configs.push(written("L", KeyStatus::NavbarNext, None, "下一个选项"));
        configs.push(written("H", KeyStatus::NavbarPrev, None, "上一个选项"));
        configs.push(written("j", KeyStatus::PickerNext, None, "下一个选项"));
        configs.push(written("k", KeyStatus::PickerPrev, None, "上一个选项"));
        configs.push(written("]", KeyStatus::NextTrack, None, "上一首"));
        configs.push(written("[", KeyStatus::PrevTrack, None, "下一首"));
        configs.push(written("m", KeyStatus::SwitchMode, None, "切换模式"));
        configs.push(written("l", KeyStatus::ProgressIncrease, ten, "进度增加 10s"));
        configs.push(written("h", KeyStatus::ProgressDecrease, ten, "进度减少 10s"));
        configs.push(written("<enter>", KeyStatus::PlaySelected, None, "播放选中的"));
        configs.push(written("p", KeyStatus::TogglePlay, None, "切换播放"));
        let keymaps = Keymaps { configs };
        assert(keymaps@ =~= default_keymap_entries());
        keymaps
    }
}

impl<'a> TryFrom<&'a Keymaps> for KeyBindings {
    type Error = String;

    /// The key map that written bindings stand for, or the text of the
    /// first combination that cannot be read.
    fn try_from(val: &'a Keymaps) -> (checked: Result<KeyBindings, String>)
        ensures
            match checked {
                Ok(bindings) => bindings@ == entries_bindings(val@) && all_readable(val@),
                Err(text) => exists|at: int|
                    #[trigger] is_first_unreadable(val@, at) && val@[at].on == text@,
            },
    {
        val.checked_bindings()
    }
}

impl<'a> vstd::std_specs::convert::TryFromSpecImpl<&'a Keymaps> for KeyBindings {
    open spec fn obeys_try_from_spec() -> bool {
        false
    }

    open spec fn try_from_spec(val: &'a Keymaps) -> Result<KeyBindings, String> {
        arbitrary()
    }
}

impl From<KeyBindings> for Keymaps {
    /// The bindings of a key map as the configuration file writes them, one
    /// entry for each bound combination, in the order in which the key map
    /// hands them out.
    fn from(value: KeyBindings) -> (keymaps: Keymaps)
        ensures
            writes_out(keymaps@, value@),
    {
        Keymaps::from_bindings(&value)
    }
}

impl vstd::std_specs::convert::FromSpecImpl<KeyBindings> for Keymaps {
    open spec fn obeys_from_spec() -> bool {
        false
    }

    open spec fn from_spec(value: KeyBindings) -> Keymaps {
        arbitrary()
    }
}

/// The configuration of the program.
#[derive(Debug)]
pub struct LazyConfig {
    /// Where the configuration was read from, or is to be written.
    pub path: String,
    /// The key bindings, if the file gives any.
    pub keymap: Option<Keymaps>,
}

impl LazyConfig {
    /// A configuration at `path` that gives no bindings.
    pub fn new(path: String) -> (config: LazyConfig)
        ensures
            config.path@ == path@,
            config.keymap is None,
    {
        LazyConfig { path, keymap: None }
    }

    /// The configuration that is written out where no file exists yet: the
    /// default bindings, at `path`.
    pub fn with_default_keymaps(path: String) -> (config: LazyConfig)
        ensures
            config.path@ == path@,
            config.keymap matches Some(keymaps) && keymaps@ == default_keymap_entries(),
    {
        LazyConfig { path, keymap: Some(Keymaps::default_keymaps()) }
    }
}

/// What `std::path::Path::join` gives for a path joined to a base, both
/// written as text, by the path rules of the platform.
pub uninterp spec fn path_join(base: Seq<char>, path: Seq<char>) -> Seq<char>;

/// What `std::path::Path::strip_prefix` gives for a path and a prefix, both
/// written as text: the rest of the path behind the prefix, or `None` where
/// the path does not begin with it.
pub uninterp spec fn path_strip_prefix(path: Seq<char>, prefix: Seq<char>) -> Option<Seq<char>>;

/// `std::path::Path::join`: the path joined to the base, as text. Nothing
/// is claimed of the result but that it is what the standard library gives
/// for these two.
#[verifier::external_body]
fn join_paths(base: &str, path: &str) -> (joined: String)
    ensures
        joined@ == path_join(base@, path@),
{
    std::path::Path::new(base).join(path).to_string_lossy().into_owned()
}

/// `std::path::Path::strip_prefix`: the rest of the path behind the prefix,
/// as text; `None` where the standard library finds that the path does not
/// begin with the prefix.
#[verifier::external_body]
fn strip_path_prefix(path: &str, prefix: &str) -> (rest: Option<String>)
    ensures
        match rest {
            Some(text) => path_strip_prefix(path@, prefix@) == Some(text@),
            None => path_strip_prefix(path@, prefix@) is None,
        },
{
    let rest = std::path::Path::new(path).strip_prefix(prefix).ok();
    rest.map(|rest| rest.to_string_lossy().into_owned())
}

/// The default place of the configuration file: `lazymusic/config.toml`
/// under the configuration directory that the environment names, else under
/// `.config` in the home directory, else under the current directory.
pub fn default_config_path(xdg_config_home: Option<String>, home: Option<String>) -> (path: String)
    ensures
        path@ == path_join(
            match (xdg_config_home, home) {
                (Some(x), _) => x@,
                (None, Some(h)) => path_join(h@, ".config"@),
                (None, None) => "."@,
            },
            "lazymusic/config.toml"@,
        ),
{
    let directory = match xdg_config_home {
        Some(x) => x,
        None => match home {
            Some(h) => join_paths(h.as_str(), ".config"),
            None => ".".to_owned(),
        },
    };
    join_paths(directory.as_str(), "lazymusic/config.toml")
}

/// What is to be joined where a path is expanded: the home directory and
/// the rest of the path behind `~`, where the path begins with `~` and the
/// home directory is known; otherwise nothing, and the path stays.
pub fn home_and_rest(rest: Option<String>, home: Option<String>) -> (pair: Option<
    (String, String),
>)
    ensures
        match (rest, home) {
            (Some(r), Some(h)) => pair matches Some(p) && p.0@ == h@ && p.1@ == r@,
            _ => pair is None,
        },
{
    match rest {
        Some(r) => match home {
            Some(h) => Some((h, r)),
            None => None,
        },
        None => None,
    }
}

/// The path that the user gave, with a leading `~` replaced by the home
/// directory where that is known.
pub fn expand_user_path(path: &str, home: Option<String>) -> (expanded: String)
    ensures
        expanded@ == match (path_strip_prefix(path@, "~"@), home) {
            (Some(rest), Some(h)) => path_join(h@, rest),
            _ => path@,
        },
{
    let rest = strip_path_prefix(path, "~");
    match home_and_rest(rest, home) {
        Some(pair) => join_paths(pair.0.as_str(), pair.1.as_str()),
        None => path.to_owned(),
    }
}

/// What reading a place of the configuration file gave.
pub enum ReadOutcome {
    /// The text of the file.
    Contents(String),
    /// Why the file could not be read.
    Failed(String),
}

/// What is to be done next while the configuration is being loaded.
pub enum LoadAction {
    /// Read the file at this path and report what came of it.
    Read { path: String },
    /// The text to be parsed, and the path that the configuration then has.
    Parse { contents: String, path: String },
    /// Loading failed: the message names every path that was tried, and
    /// `cause` is why the last one could not be read.
    Fail { message: String, cause: String },
}

/// How far loading has come.
#[derive(Clone, Copy, Debug, PartialEq, Eq, Structural)]
pub enum LoadStage {
    /// The path given by the user is being read.
    User,
    /// The default path is being read, and no other was given.
    DefaultOnly,
    /// The default path is being read after the user's path failed.
    Fallback,
    /// Nothing is left to do.
    Done,
}

/// The message for a default path that could not be read.
pub open spec fn default_failure_text(default_path: Seq<char>) -> Seq<char> {
    "无法从默认路径 '"@ + default_path + "' 读取配置"@
}

/// The message for a user path and a default path that both could not be
/// read.
pub open spec fn fallback_failure_text(
    user_path: Seq<char>,
    user_error: Seq<char>,
    default_path: Seq<char>,
) -> Seq<char> {
    "尝试主要路径 '"@ + user_path + "' (失败: "@ + user_error + ") 后，读取备用路径 '"@
        + default_path + "' 也失败"@
}

/// Loads the configuration step by step. The caller reads the files; the
/// loader says which file is next: the path given by the user first, the
/// default path where that fails or none was given.
pub struct ConfigLoader {
    user_path: String,
    user_error: String,
    default_path: String,
    stage: LoadStage,
}

impl ConfigLoader {
    /// How far loading has come.
    pub closed spec fn stage(&self) -> LoadStage {
        self.stage
    }

    /// The path given by the user; empty where none was given.
    pub closed spec fn user_path(&self) -> Seq<char> {
        self.user_path@
    }

    /// The default path.
    pub closed spec fn default_path(&self) -> Seq<char> {
        self.default_path@
    }

    /// Why the user's path could not be read, once it has failed.
    pub closed spec fn user_error(&self) -> Seq<char> {
        self.user_error@
    }

    /// Whether nothing is left to do.
    pub fn is_done(&self) -> (done: bool)
        ensures
            done == (self.stage() == LoadStage::Done),
    {
        self.stage == LoadStage::Done
    }

    /// Starts loading. The first file to read is the user's where a path
    /// was given, the default one otherwise.
    pub fn start(user_path: Option<String>, default_path: String) -> (started: (
        ConfigLoader,
        LoadAction,
    ))
        ensures
            started.0.default_path() == default_path@,
            match user_path {
                Some(path) => {
                    &&& started.0.stage() == LoadStage::User
                    &&& started.0.user_path() == path@
                    &&& started.1 matches LoadAction::Read { path: first }
                    &&& first@ == path@
                },
                None => {
                    &&& started.0.stage() == LoadStage::DefaultOnly
                    &&& started.1 matches LoadAction::Read { path: first }
                    &&& first@ == default_path@
                },
            },
    {
        match user_path {
            Some(path) => {
                let first = path.clone();
                (
                    ConfigLoader {
                        user_path: path,
                        user_error: String::new(),
                        default_path,
                        stage: LoadStage::User,
                    },
                    LoadAction::Read { path: first },
                )
            },
            None => {
                let first = default_path.clone();
                (
                    ConfigLoader {
                        user_path: String::new(),
                        user_error: String::new(),
                        default_path,
                        stage: LoadStage::DefaultOnly,
                    },
                    LoadAction::Read { path: first },
                )
            },
        }
    }

    /// Takes what the last read gave and says what is next. A text is to be
    /// parsed, with the path it came from. A failed read of the user's path
    /// leads to the default path; a failed read of the default path ends
    /// loading, with a message that names what was tried.
    pub fn step(&mut self, outcome: ReadOutcome) -> (action: LoadAction)
        requires
            old(self).stage() != LoadStage::Done,
        ensures
            final(self).user_path() == old(self).user_path(),
            final(self).default_path() == old(self).default_path(),
            match (old(self).stage(), outcome) {
                (LoadStage::User, ReadOutcome::Contents(text)) => {
                    &&& final(self).stage() == LoadStage::Done
                    &&& action matches LoadAction::Parse { contents, path }
                    &&& contents@ == text@
                    &&& path@ == old(self).user_path()
                },
                (LoadStage::User, ReadOutcome::Failed(error)) => {
                    &&& final(self).stage() == LoadStage::Fallback
                    &&& final(self).user_error() == error@
                    &&& action matches LoadAction::Read { path }
                    &&& path@ == old(self).default_path()
                },
                (_, ReadOutcome::Contents(text)) => {
                    &&& final(self).stage() == LoadStage::Done
                    &&& action matches LoadAction::Parse { contents, path }
                    &&& contents@ == text@
                    &&& path@ == old(self).default_path()
                },
                (LoadStage::Fallback, ReadOutcome::Failed(error)) => {
                    &&& final(self).stage() == LoadStage::Done
                    &&& action matches LoadAction::Fail { message, cause }
                    &&& cause@ == error@
                    &&& message@ == fallback_failure_text(
                        old(self).user_path(),
                        old(self).user_error(),
                        old(self).default_path(),
                    )
                },
                (_, ReadOutcome::Failed(error)) => {
                    &&& final(self).stage() == LoadStage::Done
                    &&& action matches LoadAction::Fail { message, cause }
                    &&& cause@ == error@
                    &&& message@ == default_failure_text(old(self).default_path())
                },
            },
    {
        let stage = self.stage;
        match outcome {
            ReadOutcome::Contents(contents) => {
                self.stage = LoadStage::Done;
                let path = match stage {
                    LoadStage::User => self.user_path.clone(),
                    _ => self.default_path.clone(),
                };
                LoadAction::Parse { contents, path }
            },
            ReadOutcome::Failed(error) => match stage {
                LoadStage::User => {
                    self.stage = LoadStage::Fallback;
                    self.user_error = error;
                    LoadAction::Read { path: self.default_path.clone() }
                },
                LoadStage::Fallback => {
                    self.stage = LoadStage::Done;
                    let mut text: Vec<char> = Vec::new();
                    push_str(&mut text, "尝试主要路径 '");
                    push_str(&mut text, self.user_path.as_str());
                    push_str(&mut text, "' (失败: ");
                    push_str(&mut text, self.user_error.as_str());
                    push_str(&mut text, ") 后，读取备用路径 '");
                    push_str(&mut text, self.default_path.as_str());
                    push_str(&mut text, "' 也失败");
                    LoadAction::Fail { message: string_from_chars(&text), cause: error }
                },
                _ => {
                    self.stage = LoadStage::Done;
                    let mut text: Vec<char> = Vec::new();
                    push_str(&mut text, "无法从默认路径 '");
                    push_str(&mut text, self.default_path.as_str());
                    push_str(&mut text, "' 读取配置");
                    LoadAction::Fail { message: string_from_chars(&text), cause: error }
                },
            },
        }
    }
}

} // verus!
