//! State of the configuration editor window.
use vstd::prelude::*;
use std::path::PathBuf;

use crate::configurator::draft::{
    ColorMode, ConfigDraft, NamedColorOption, draft_eq, mode_switched, named_picked, quad_set,
    triplet_set, with_text, with_toggle,
};
use crate::configurator::error::FormError;
use crate::configurator::fields::{
    BoardModeOption, FontStyleOption, FontWeightOption, QuadField, SessionCompressionOption,
    SessionStorageModeOption, StatusPositionOption, TextField, ToggleField, TripletField, font_style_value,
    font_weight_value,
};
use crate::configurator::keybindings::{KeybindingField, entries_model, first_entry_for};
use crate::configurator::tab::TabId;
use crate::text::{append_chars, join_strings, join_with, lossy_text, str_chars, str_to_string, strings_of, utf8_lossy};

verus! {

/// The message shown in the editor's footer.
#[derive(Debug, Clone)]
pub enum StatusMessage {
    Idle,
    Info(String),
    Success(String),
    Error(String),
}

impl StatusMessage {
    /// No message.
    pub fn idle() -> (m: Self)
        ensures
            m is Idle,
    {
        StatusMessage::Idle
    }

    /// An informational message.
    pub fn info(message: String) -> (m: Self)
        ensures
            m == StatusMessage::Info(message),
    {
        StatusMessage::Info(message)
    }

    /// A success message.
    pub fn success(message: String) -> (m: Self)
        ensures
            m == StatusMessage::Success(message),
    {
        StatusMessage::Success(message)
    }

    /// An error message.
    pub fn error(message: String) -> (m: Self)
        ensures
            m == StatusMessage::Error(message),
    {
        StatusMessage::Error(message)
    }
}

/// The editor: the draft being edited, the settings last loaded or saved,
/// and the window's status.
pub struct ConfiguratorApp {
    pub draft: ConfigDraft,
    pub baseline: ConfigDraft,
    pub status: StatusMessage,
    pub active_tab: TabId,
    pub is_loading: bool,
    pub is_saving: bool,
    pub is_dirty: bool,
    pub config_path: Option<PathBuf>,
    pub last_backup_path: Option<Vec<u8>>,
}

impl ConfiguratorApp {
    /// Records whether the draft differs from the last loaded or saved settings.
    pub fn refresh_dirty_flag(&mut self)
        ensures
            *final(self) == (ConfiguratorApp {
                is_dirty: !draft_eq(old(self).draft, old(self).baseline),
                ..*old(self)
            }),
    {
        let same = self.draft.same_as(&self.baseline);
        self.is_dirty = !same;
    }
}

/// What happens in the editor window. Settings read from or written to
/// disk arrive as drafts; a save request carries whether the draft converts
/// into a configuration, with the reasons when it does not.
pub enum Message {
    ConfigLoaded(Result<ConfigDraft, String>),
    ReloadRequested,
    ResetToDefaults(ConfigDraft),
    SaveRequested(Result<(), Vec<FormError>>),
    ConfigSaved(Result<(Option<Vec<u8>>, ConfigDraft), String>),
    TabSelected(TabId),
    ToggleChanged(ToggleField, bool),
    TextChanged(TextField, String),
    TripletChanged(TripletField, usize, String),
    QuadChanged(QuadField, usize, String),
    ColorModeChanged(ColorMode),
    NamedColorSelected(NamedColorOption),
    StatusPositionChanged(StatusPositionOption),
    BoardModeChanged(BoardModeOption),
    SessionStorageModeChanged(SessionStorageModeOption),
    SessionCompressionChanged(SessionCompressionOption),
    BufferCountChanged(u32),
    KeybindingChanged(KeybindingField, String),
    FontStyleOptionSelected(FontStyleOption),
    FontWeightOptionSelected(FontWeightOption),
}

/// The work an update asks the caller to start.
#[derive(Debug, Clone, Copy, PartialEq, Eq, Structural)]
pub enum EditorCommand {
    /// Nothing to do.
    Nothing,
    /// Read the configuration file and answer with `ConfigLoaded`.
    LoadConfig,
    /// Convert the draft, validate it, write it with a backup and answer
    /// with `ConfigSaved`.
    SaveConfig,
}

/// The status is an information with text `t`.
pub open spec fn info_text(s: StatusMessage, t: Seq<char>) -> bool {
    s matches StatusMessage::Info(m) && m@ == t
}

/// The status is a success with text `t`.
pub open spec fn success_text(s: StatusMessage, t: Seq<char>) -> bool {
    s matches StatusMessage::Success(m) && m@ == t
}

/// The status is an error with text `t`.
pub open spec fn error_text(s: StatusMessage, t: Seq<char>) -> bool {
    s matches StatusMessage::Error(m) && m@ == t
}

/// One line per validation error: the field, a colon and the reason.
pub open spec fn error_lines(errors: Seq<FormError>) -> Seq<Seq<char>> {
    errors.map_values(|e: FormError| e.field@ + ": "@ + e.message@)
}

/// The status after a successful save: a success naming the backup, as a
/// path with bytes `p` is shown, when one was made.
pub open spec fn saved_status(s: StatusMessage, backup: Option<Seq<u8>>) -> bool {
    match backup {
        Some(p) => success_text(s, "Configuration saved successfully.\nBackup created at "@ + utf8_lossy(p)),
        None => success_text(s, "Configuration saved successfully."@),
    }
}

/// `b` is `a` after an edit that left the draft as `d`: the status clears and
/// the window is dirty when `d` differs from the saved settings.
pub open spec fn edited(a: ConfiguratorApp, b: ConfiguratorApp, d: ConfigDraft) -> bool {
    b == ConfiguratorApp { draft: d, status: StatusMessage::Idle, is_dirty: !draft_eq(d, a.baseline), ..a }
}

/// `b` is `a` after an edit that changed the draft as `changed` says.
pub open spec fn edited_by(a: ConfiguratorApp, b: ConfiguratorApp, changed: bool) -> bool {
    &&& changed
    &&& edited(a, b, b.draft)
}

/// `n` is draft `d` with the colour entered in `mode` (see `mode_switched`).
pub open spec fn color_mode_set(d: ConfigDraft, n: ConfigDraft, mode: ColorMode) -> bool {
    &&& n == ConfigDraft { drawing_color: n.drawing_color, ..d }
    &&& mode_switched(d.drawing_color, n.drawing_color, mode)
}

/// `n` is draft `d` with colour option `o` picked (see `named_picked`).
pub open spec fn named_color_set(d: ConfigDraft, n: ConfigDraft, o: NamedColorOption) -> bool {
    &&& n == ConfigDraft { drawing_color: n.drawing_color, ..d }
    &&& named_picked(d.drawing_color, n.drawing_color, o)
}

/// `n` is draft `d` with font style option `o`; a named style also fills in its value.
pub open spec fn font_style_set(d: ConfigDraft, n: ConfigDraft, o: FontStyleOption) -> bool {
    &&& n == ConfigDraft { drawing_font_style: n.drawing_font_style, drawing_font_style_option: o, ..d }
    &&& if o == FontStyleOption::Custom {
        n.drawing_font_style == d.drawing_font_style
    } else {
        n.drawing_font_style@ == font_style_value(o)
    }
}

/// `n` is draft `d` with font weight option `o`; a named weight also fills in its value.
pub open spec fn font_weight_set(d: ConfigDraft, n: ConfigDraft, o: FontWeightOption) -> bool {
    &&& n == ConfigDraft { drawing_font_weight: n.drawing_font_weight, drawing_font_weight_option: o, ..d }
    &&& if o == FontWeightOption::Custom {
        n.drawing_font_weight == d.drawing_font_weight
    } else {
        n.drawing_font_weight@ == font_weight_value(o)
    }
}

/// `n` is draft `d` with the first keybinding entry for `f` showing `v`.
pub open spec fn keybinding_set(d: ConfigDraft, n: ConfigDraft, f: KeybindingField, v: Seq<char>) -> bool {
    &&& n == ConfigDraft { keybindings: n.keybindings, ..d }
    &&& match first_entry_for(entries_model(d.keybindings.entries@), f) {
        Some(i) => entries_model(n.keybindings.entries@) == entries_model(d.keybindings.entries@).update(i, (f, v)),
        None => entries_model(n.keybindings.entries@) == entries_model(d.keybindings.entries@),
    }
}

/// Reading the configuration file finished: a loaded draft becomes both
/// the draft and the saved settings; a failure is reported.
pub open spec fn loaded_ok(a: ConfiguratorApp, b: ConfiguratorApp, r: Result<ConfigDraft, String>, cmd: EditorCommand) -> bool {
    &&& cmd == EditorCommand::Nothing
    &&& match r {
        Ok(d) => {
            &&& b == ConfiguratorApp {
                draft: b.draft,
                baseline: d,
                status: b.status,
                is_loading: false,
                is_dirty: false,
                ..a
            }
            &&& draft_eq(b.draft, d)
            &&& success_text(b.status, "Configuration loaded from disk."@)
        },
        Err(e) => {
            &&& b == ConfiguratorApp { status: b.status, is_loading: false, ..a }
            &&& error_text(b.status, "Failed to load config from disk: "@ + e@)
        },
    }
}

/// A reload starts unless a load or a save is under way.
pub open spec fn reload_ok(a: ConfiguratorApp, b: ConfiguratorApp, cmd: EditorCommand) -> bool {
    if !a.is_loading && !a.is_saving {
        &&& b == ConfiguratorApp { status: b.status, is_loading: true, ..a }
        &&& info_text(b.status, "Reloading configuration..."@)
        &&& cmd == EditorCommand::LoadConfig
    } else {
        b == a && cmd == EditorCommand::Nothing
    }
}

/// Unless a load is under way, the defaults replace the draft (unsaved).
pub open spec fn reset_ok(a: ConfiguratorApp, b: ConfiguratorApp, d: ConfigDraft, cmd: EditorCommand) -> bool {
    &&& cmd == EditorCommand::Nothing
    &&& if !a.is_loading {
        &&& b == ConfiguratorApp { draft: d, status: b.status, is_dirty: !draft_eq(d, a.baseline), ..a }
        &&& info_text(b.status, "Loaded default configuration (not saved)."@)
    } else {
        b == a
    }
}

/// Unless a save is under way, a draft that converts is saved; otherwise
/// the reasons are listed.
pub open spec fn save_requested_ok(a: ConfiguratorApp, b: ConfiguratorApp, check: Result<(), Vec<FormError>>, cmd: EditorCommand) -> bool {
    if a.is_saving {
        b == a && cmd == EditorCommand::Nothing
    } else {
        match check {
            Ok(_) => {
                &&& b == ConfiguratorApp { status: b.status, is_saving: true, ..a }
                &&& info_text(b.status, "Saving configuration..."@)
                &&& cmd == EditorCommand::SaveConfig
            },
            Err(errors) => {
                &&& b == ConfiguratorApp { status: b.status, ..a }
                &&& error_text(
                    b.status,
                    "Cannot save due to validation errors:\n"@ + join_with(error_lines(errors@), "\n"@),
                )
                &&& cmd == EditorCommand::Nothing
            },
        }
    }
}

/// Writing finished: the saved draft becomes both the draft and the saved
/// settings, and the backup is remembered; a failure is reported.
pub open spec fn saved_ok(
    a: ConfiguratorApp,
    b: ConfiguratorApp,
    r: Result<(Option<Vec<u8>>, ConfigDraft), String>,
    cmd: EditorCommand,
) -> bool {
    &&& cmd == EditorCommand::Nothing
    &&& match r {
        Ok((backup, d)) => {
            &&& b == ConfiguratorApp {
                draft: b.draft,
                baseline: d,
                status: b.status,
                is_saving: false,
                is_dirty: false,
                last_backup_path: backup,
                ..a
            }
            &&& draft_eq(b.draft, d)
            &&& saved_status(
                b.status,
                match backup {
                    Some(p) => Some(p@),
                    None => None,
                },
            )
        },
        Err(e) => {
            &&& b == ConfiguratorApp { status: b.status, is_saving: false, ..a }
            &&& error_text(b.status, "Failed to save configuration: "@ + e@)
        },
    }
}

/// What one message does to the editor, and the work it asks for.
pub open spec fn update_ok(a: ConfiguratorApp, b: ConfiguratorApp, msg: Message, cmd: EditorCommand) -> bool {
    match msg {
        Message::ConfigLoaded(r) => loaded_ok(a, b, r, cmd),
        Message::ReloadRequested => reload_ok(a, b, cmd),
        Message::ResetToDefaults(d) => reset_ok(a, b, d, cmd),
        Message::SaveRequested(check) => save_requested_ok(a, b, check, cmd),
        Message::ConfigSaved(r) => saved_ok(a, b, r, cmd),
        Message::TabSelected(t) => b == ConfiguratorApp { active_tab: t, ..a } && cmd == EditorCommand::Nothing,
        Message::ToggleChanged(f, v) => cmd == EditorCommand::Nothing && edited(a, b, with_toggle(a.draft, f, v)),
        Message::TextChanged(f, v) => cmd == EditorCommand::Nothing && edited(a, b, with_text(a.draft, f, v)),
        Message::TripletChanged(f, i, v) => cmd == EditorCommand::Nothing && edited_by(
            a,
            b,
            triplet_set(a.draft, b.draft, f, i, v),
        ),
        Message::QuadChanged(f, i, v) => cmd == EditorCommand::Nothing && edited_by(
            a,
            b,
            quad_set(a.draft, b.draft, f, i, v),
        ),
        Message::ColorModeChanged(m) => cmd == EditorCommand::Nothing && edited_by(
            a,
            b,
            color_mode_set(a.draft, b.draft, m),
        ),
        Message::NamedColorSelected(o) => cmd == EditorCommand::Nothing && edited_by(
            a,
            b,
            named_color_set(a.draft, b.draft, o),
        ),
        Message::StatusPositionChanged(o) => cmd == EditorCommand::Nothing && edited(
            a,
            b,
            ConfigDraft { ui_status_position: o, ..a.draft },
        ),
        Message::BoardModeChanged(o) => cmd == EditorCommand::Nothing && edited(
            a,
            b,
            ConfigDraft { board_default_mode: o, ..a.draft },
        ),
        Message::SessionStorageModeChanged(o) => cmd == EditorCommand::Nothing && edited(
            a,
            b,
            ConfigDraft { session_storage_mode: o, ..a.draft },
        ),
        Message::SessionCompressionChanged(o) => cmd == EditorCommand::Nothing && edited(
            a,
            b,
            ConfigDraft { session_compression: o, ..a.draft },
        ),
        Message::BufferCountChanged(n) => cmd == EditorCommand::Nothing && edited(
            a,
            b,
            ConfigDraft { performance_buffer_count: n, ..a.draft },
        ),
        Message::KeybindingChanged(f, v) => cmd == EditorCommand::Nothing && edited_by(
            a,
            b,
            keybinding_set(a.draft, b.draft, f, v@),
        ),
        Message::FontStyleOptionSelected(o) => cmd == EditorCommand::Nothing && edited_by(
            a,
            b,
            font_style_set(a.draft, b.draft, o),
        ),
        Message::FontWeightOptionSelected(o) => cmd == EditorCommand::Nothing && edited_by(
            a,
            b,
            font_weight_set(a.draft, b.draft, o),
        ),
    }
}

/// `prefix` followed by `detail`.
fn prefixed(prefix: &str, detail: &String) -> (s: String)
    ensures
        s@ == prefix@ + detail@,
{
    let mut s = str_to_string(prefix);
    let d = str_chars(detail.as_str());
    append_chars(&mut s, &d);
    s
}

/// The message listing the reasons a draft cannot be saved, one per line.
fn validation_message(errors: &Vec<FormError>) -> (s: String)
    ensures
        s@ == "Cannot save due to validation errors:\n"@ + join_with(error_lines(errors@), "\n"@),
{
    let mut lines: Vec<String> = Vec::new();
    let mut i: usize = 0;
    while i < errors.len()
        invariant
            i <= errors.len(),
            strings_of(lines@) == error_lines(errors@).take(i as int),
        decreases errors.len() - i,
    {
        let mut line = errors[i].field.clone();
        let sep = str_chars(": ");
        append_chars(&mut line, &sep);
        let msg = str_chars(errors[i].message.as_str());
        append_chars(&mut line, &msg);
        let ghost before = strings_of(lines@);
        lines.push(line);
        proof {
            assert(strings_of(lines@) =~= before.push(line@));
            assert(error_lines(errors@).take(i as int + 1) =~= error_lines(errors@).take(i as int).push(
                errors@[i as int].field@ + ": "@ + errors@[i as int].message@,
            ));
            assert(line@ =~= errors@[i as int].field@ + ": "@ + errors@[i as int].message@);
        }
        i += 1;
    }
    proof {
        assert(error_lines(errors@).take(errors.len() as int) =~= error_lines(errors@));
    }
    let joined = join_strings(&lines, "\n");
    prefixed("Cannot save due to validation errors:\n", &joined)
}

impl ConfiguratorApp {
    /// The editor as it opens: the defaults shown while the configuration
    /// file is read.
    pub fn new(defaults: ConfigDraft, config_path: Option<PathBuf>) -> (r: (ConfiguratorApp, EditorCommand))
        ensures
            r.0 == (ConfiguratorApp {
                draft: r.0.draft,
                baseline: defaults,
                status: r.0.status,
                active_tab: TabId::Drawing,
                is_loading: true,
                is_saving: false,
                is_dirty: false,
                config_path,
                last_backup_path: None,
            }),
            draft_eq(r.0.draft, defaults),
            info_text(r.0.status, "Loading configuration..."@),
            r.1 == EditorCommand::LoadConfig,
    {
        let draft = defaults.duplicate();
        let app = ConfiguratorApp {
            draft,
            baseline: defaults,
            status: StatusMessage::info(str_to_string("Loading configuration...")),
            active_tab: TabId::Drawing,
            is_loading: true,
            is_saving: false,
            is_dirty: false,
            config_path,
            last_backup_path: None,
        };
        (app, EditorCommand::LoadConfig)
    }

    fn on_config_loaded(&mut self, result: Result<ConfigDraft, String>) -> (cmd: EditorCommand)
        ensures
            loaded_ok(*old(self), *final(self), result, cmd),
    {
        self.is_loading = false;
        match result {
            Ok(draft) => {
                self.draft = draft.duplicate();
                self.baseline = draft;
                self.is_dirty = false;
                self.status = StatusMessage::success(str_to_string("Configuration loaded from disk."));
            },
            Err(err) => {
                self.status = StatusMessage::error(prefixed("Failed to load config from disk: ", &err));
            },
        }
        EditorCommand::Nothing
    }

    fn on_save_requested(&mut self, check: Result<(), Vec<FormError>>) -> (cmd: EditorCommand)
        ensures
            save_requested_ok(*old(self), *final(self), check, cmd),
    {
        if self.is_saving {
            return EditorCommand::Nothing;
        }
        match check {
            Ok(()) => {
                self.is_saving = true;
                self.status = StatusMessage::info(str_to_string("Saving configuration..."));
                EditorCommand::SaveConfig
            },
            Err(errors) => {
                self.status = StatusMessage::error(validation_message(&errors));
                EditorCommand::Nothing
            },
        }
    }

    fn on_config_saved(&mut self, result: Result<(Option<Vec<u8>>, ConfigDraft), String>) -> (cmd: EditorCommand)
        ensures
            saved_ok(*old(self), *final(self), result, cmd),
    {
        self.is_saving = false;
        match result {
            Ok((backup, draft)) => {
                let mut msg = str_to_string("Configuration saved successfully.");
                match &backup {
                    Some(path) => {
                        let shown = lossy_text(path);
                        let note = prefixed("\nBackup created at ", &shown);
                        let note_chars = str_chars(note.as_str());
                        let ghost first = msg@;
                        append_chars(&mut msg, &note_chars);
                        proof {
                            assert(msg@ =~= "Configuration saved successfully.\nBackup created at "@ + shown@) by {
                                reveal_strlit("Configuration saved successfully.");
                                reveal_strlit("\nBackup created at ");
                                reveal_strlit("Configuration saved successfully.\nBackup created at ");
                            }
                        }
                    },
                    None => {},
                }
                self.last_backup_path = backup;
                self.draft = draft.duplicate();
                self.baseline = draft;
                self.is_dirty = false;
                self.status = StatusMessage::success(msg);
            },
            Err(err) => {
                self.status = StatusMessage::error(prefixed("Failed to save configuration: ", &err));
            },
        }
        EditorCommand::Nothing
    }

    #[verifier::rlimit(100)]
    #[verifier::spinoff_prover]
    fn on_color_mode(&mut self, mode: ColorMode) -> (cmd: EditorCommand)
        ensures
            cmd == EditorCommand::Nothing,
            edited_by(*old(self), *final(self), color_mode_set(old(self).draft, final(self).draft, mode)),
    {
        self.status = StatusMessage::idle();
        self.draft.drawing_color.switch_mode(mode);
        self.refresh_dirty_flag();
        EditorCommand::Nothing
    }

    fn on_reload(&mut self) -> (cmd: EditorCommand)
        ensures
            reload_ok(*old(self), *final(self), cmd),
    {
        if !self.is_loading && !self.is_saving {
            self.is_loading = true;
            self.status = StatusMessage::info(str_to_string("Reloading configuration..."));
            EditorCommand::LoadConfig
        } else {
            EditorCommand::Nothing
        }
    }

    fn on_reset(&mut self, defaults: ConfigDraft) -> (cmd: EditorCommand)
        ensures
            reset_ok(*old(self), *final(self), defaults, cmd),
    {
        if !self.is_loading {
            self.draft = defaults;
            self.status = StatusMessage::info(str_to_string("Loaded default configuration (not saved)."));
            self.refresh_dirty_flag();
        }
        EditorCommand::Nothing
    }

    fn on_toggle(&mut self, field: ToggleField, value: bool) -> (cmd: EditorCommand)
        ensures
            cmd == EditorCommand::Nothing && edited(*old(self), *final(self), with_toggle(old(self).draft, field, value)),
    {
        self.status = StatusMessage::idle();
        self.draft.set_toggle(field, value);
        self.refresh_dirty_flag();
        EditorCommand::Nothing
    }

    fn on_text(&mut self, field: TextField, value: String) -> (cmd: EditorCommand)
        ensures
            cmd == EditorCommand::Nothing && edited(*old(self), *final(self), with_text(old(self).draft, field, value)),
    {
        self.status = StatusMessage::idle();
        self.draft.set_text(field, value);
        self.refresh_dirty_flag();
        EditorCommand::Nothing
    }

    fn on_triplet(&mut self, field: TripletField, index: usize, value: String) -> (cmd: EditorCommand)
        ensures
            cmd == EditorCommand::Nothing && edited_by(*old(self), *final(self), triplet_set(old(self).draft, final(self).draft, field, index, value)),
    {
        self.status = StatusMessage::idle();
        self.draft.set_triplet(field, index, value);
        self.refresh_dirty_flag();
        EditorCommand::Nothing
    }

    fn on_quad(&mut self, field: QuadField, index: usize, value: String) -> (cmd: EditorCommand)
        ensures
            cmd == EditorCommand::Nothing && edited_by(*old(self), *final(self), quad_set(old(self).draft, final(self).draft, field, index, value)),
    {
        self.status = StatusMessage::idle();
        self.draft.set_quad(field, index, value);
        self.refresh_dirty_flag();
        EditorCommand::Nothing
    }

    fn on_named_color(&mut self, option: NamedColorOption) -> (cmd: EditorCommand)
        ensures
            cmd == EditorCommand::Nothing && edited_by(*old(self), *final(self), named_color_set(old(self).draft, final(self).draft, option)),
    {
        self.status = StatusMessage::idle();
        self.draft.drawing_color.pick_named(option);
        self.refresh_dirty_flag();
        EditorCommand::Nothing
    }

    #[verifier::rlimit(100)]
    #[verifier::spinoff_prover]
    fn on_status_position(&mut self, option: StatusPositionOption) -> (cmd: EditorCommand)
        ensures
            cmd == EditorCommand::Nothing && edited(*old(self), *final(self), ConfigDraft { ui_status_position: option, ..old(self).draft }),
    {
        self.status = StatusMessage::idle();
        self.draft.ui_status_position = option;
        self.refresh_dirty_flag();
        EditorCommand::Nothing
    }

    #[verifier::rlimit(100)]
    #[verifier::spinoff_prover]
    fn on_board_mode(&mut self, option: BoardModeOption) -> (cmd: EditorCommand)
        ensures
            cmd == EditorCommand::Nothing && edited(*old(self), *final(self), ConfigDraft { board_default_mode: option, ..old(self).draft }),
    {
        self.status = StatusMessage::idle();
        self.draft.board_default_mode = option;
        self.refresh_dirty_flag();
        EditorCommand::Nothing
    }

    #[verifier::rlimit(100)]
    #[verifier::spinoff_prover]
    fn on_storage_mode(&mut self, option: SessionStorageModeOption) -> (cmd: EditorCommand)
        ensures
            cmd == EditorCommand::Nothing && edited(*old(self), *final(self), ConfigDraft { session_storage_mode: option, ..old(self).draft }),
    {
        self.status = StatusMessage::idle();
        self.draft.session_storage_mode = option;
        self.refresh_dirty_flag();
        EditorCommand::Nothing
    }

    #[verifier::rlimit(100)]
    #[verifier::spinoff_prover]
    fn on_compression(&mut self, option: SessionCompressionOption) -> (cmd: EditorCommand)
        ensures
            cmd == EditorCommand::Nothing && edited(*old(self), *final(self), ConfigDraft { session_compression: option, ..old(self).draft }),
    {
        self.status = StatusMessage::idle();
        self.draft.session_compression = option;
        self.refresh_dirty_flag();
        EditorCommand::Nothing
    }

    #[verifier::rlimit(100)]
    #[verifier::spinoff_prover]
    fn on_buffer_count(&mut self, count: u32) -> (cmd: EditorCommand)
        ensures
            cmd == EditorCommand::Nothing && edited(*old(self), *final(self), ConfigDraft { performance_buffer_count: count, ..old(self).draft }),
    {
        self.status = StatusMessage::idle();
        self.draft.performance_buffer_count = count;
        self.refresh_dirty_flag();
        EditorCommand::Nothing
    }

    fn on_keybinding(&mut self, field: KeybindingField, value: String) -> (cmd: EditorCommand)
        ensures
            cmd == EditorCommand::Nothing && edited_by(*old(self), *final(self), keybinding_set(old(self).draft, final(self).draft, field, value@)),
    {
        self.status = StatusMessage::idle();
        self.draft.keybindings.set(field, value);
        self.refresh_dirty_flag();
        EditorCommand::Nothing
    }

    #[verifier::rlimit(100)]
    #[verifier::spinoff_prover]
    fn on_font_style(&mut self, option: FontStyleOption) -> (cmd: EditorCommand)
        ensures
            cmd == EditorCommand::Nothing && edited_by(*old(self), *final(self), font_style_set(old(self).draft, final(self).draft, option)),
    {
        self.status = StatusMessage::idle();
        self.draft.drawing_font_style_option = option;
        if option != FontStyleOption::Custom {
            self.draft.drawing_font_style = str_to_string(option.canonical_value());
        }
        self.refresh_dirty_flag();
        EditorCommand::Nothing
    }

    #[verifier::rlimit(100)]
    #[verifier::spinoff_prover]
    fn on_font_weight(&mut self, option: FontWeightOption) -> (cmd: EditorCommand)
        ensures
            cmd == EditorCommand::Nothing && edited_by(*old(self), *final(self), font_weight_set(old(self).draft, final(self).draft, option)),
    {
        self.status = StatusMessage::idle();
        self.draft.drawing_font_weight_option = option;
        if option != FontWeightOption::Custom {
            self.draft.drawing_font_weight = str_to_string(option.canonical_value());
        }
        self.refresh_dirty_flag();
        EditorCommand::Nothing
    }

    /// Handles one message and says what work to start.
    #[verifier::rlimit(100)]
    #[verifier::spinoff_prover]
    pub fn update(&mut self, message: Message) -> (cmd: EditorCommand)
        ensures
            update_ok(*old(self), *final(self), message, cmd),
    {
        match message {
            Message::ConfigLoaded(result) => self.on_config_loaded(result),
            Message::ReloadRequested => self.on_reload(),
            Message::ResetToDefaults(defaults) => self.on_reset(defaults),
            Message::SaveRequested(check) => self.on_save_requested(check),
            Message::ConfigSaved(result) => self.on_config_saved(result),
            Message::TabSelected(tab) => {
                self.active_tab = tab;
                EditorCommand::Nothing
            },
            Message::ToggleChanged(field, value) => self.on_toggle(field, value),
            Message::TextChanged(field, value) => self.on_text(field, value),
            Message::TripletChanged(field, index, value) => self.on_triplet(field, index, value),
            Message::QuadChanged(field, index, value) => self.on_quad(field, index, value),
            Message::ColorModeChanged(mode) => self.on_color_mode(mode),
            Message::NamedColorSelected(option) => self.on_named_color(option),
            Message::StatusPositionChanged(option) => self.on_status_position(option),
            Message::BoardModeChanged(option) => self.on_board_mode(option),
            Message::SessionStorageModeChanged(option) => self.on_storage_mode(option),
            Message::SessionCompressionChanged(option) => self.on_compression(option),
            Message::BufferCountChanged(count) => self.on_buffer_count(count),
            Message::KeybindingChanged(field, value) => self.on_keybinding(field, value),
            Message::FontStyleOptionSelected(option) => self.on_font_style(option),
            Message::FontWeightOptionSelected(option) => self.on_font_weight(option),
        }
    }
}

/// Law: the editor's dirty flag always tells whether the draft differs from
/// the settings last loaded or saved: it holds when the editor opens (see
/// `new`) and every message keeps it so.
pub proof fn law_dirty_flag_tracks_changes(a: ConfiguratorApp, b: ConfiguratorApp, msg: Message, cmd: EditorCommand)
    requires
        a.is_dirty == !draft_eq(a.draft, a.baseline),
        update_ok(a, b, msg, cmd),
    ensures
        b.is_dirty == !draft_eq(b.draft, b.baseline),
{
}

} // verus!
