//! Exporting the composed text: typing the target path, checking it, and
//! reporting how writing it went.

use vstd::prelude::*;
use vstd::string::*;

use crate::text::decimal;
use crate::text::push_decimal;
use crate::text::trim_chars;
use crate::text::trimmed;
use crate::tui::app::App;
use crate::tui::app::AppModel;
use crate::tui::app::Effect;
use crate::tui::app::Key;
use crate::tui::app::Mode;
use crate::tui::compose::composed_text_of;
use crate::tui::compose::minus_or_zero;
use crate::tui::compose::selected_count_of;

verus! {

/// What a key does while the export path is typed.
pub open spec fn export_path_key_model(v: AppModel, k: Key) -> (AppModel, Effect) {
    let c = v.title_cursor;
    if k == Key::Enter {
        (v, Effect::Export)
    } else if k == Key::Esc {
        (AppModel { mode: Mode::Normal, title_input: Seq::empty(), title_cursor: 0, ..v }, Effect::Nothing)
    } else if k == Key::Backspace {
        if c > 0 {
            (
                AppModel {
                    title_cursor: (c - 1) as usize,
                    title_input: v.title_input.remove(c - 1),
                    ..v
                },
                Effect::Nothing,
            )
        } else {
            (v, Effect::Nothing)
        }
    } else if k == Key::Left {
        (AppModel { title_cursor: minus_or_zero(c as int, 1) as usize, ..v }, Effect::Nothing)
    } else if k == Key::Right {
        if (c as int) < v.title_input.len() {
            (AppModel { title_cursor: (c + 1) as usize, ..v }, Effect::Nothing)
        } else {
            (v, Effect::Nothing)
        }
    } else {
        match k {
            Key::Char(ch) => (
                AppModel {
                    title_input: v.title_input.insert(c as int, ch),
                    title_cursor: (c + 1) as usize,
                    ..v
                },
                Effect::Nothing,
            ),
            _ => (v, Effect::Nothing),
        }
    }
}

/// The input line's cursor lies within the typed text.
pub open spec fn input_cursor_valid(v: AppModel) -> bool {
    v.title_cursor <= v.title_input.len()
}

/// The composed text written to a file: where, what, and from how many snippets.
pub struct ExportJob {
    /// The path to write, with a leading `~` expanded.
    pub path: String,
    /// The composed text.
    pub contents: String,
    /// How many snippets are selected.
    pub count: usize,
}

/// What writing the composed text to its path gave.
#[derive(Debug, Clone, PartialEq, Eq)]
pub enum ExportOutcome {
    /// The path's parent directory does not exist; nothing was written.
    ParentMissing,
    /// A file exists at the path; it was left as it was.
    AlreadyExists,
    /// The text was written to the path.
    Written,
    /// Writing failed; the reason.
    Failed(String),
}

/// The path typed, with a leading `~` replaced by the home directory;
/// `None` where it starts with `~` and no home directory is known.
pub open spec fn expand_tilde(raw: Seq<char>, home: Option<Seq<char>>) -> Option<Seq<char>> {
    if raw.len() > 0 && raw[0] == '~' {
        match home {
            Some(h) => Some(h + raw.drop_first()),
            None => None,
        }
    } else {
        Some(raw)
    }
}

/// The characters of an optional string.
pub open spec fn opt_chars(s: Option<String>) -> Option<Seq<char>> {
    match s {
        Some(t) => Some(t@),
        None => None,
    }
}

/// `"No path entered."`
pub open spec fn no_path_message() -> Seq<char> {
    "No path entered."@
}

/// `"Cannot expand ~: HOME not set."`
pub open spec fn no_home_message() -> Seq<char> {
    "Cannot expand ~: HOME not set."@
}

/// What preparing an export does: the new state, and the path to write
/// where the typed path is usable.
pub open spec fn export_model(v: AppModel, home: Option<Seq<char>>) -> (AppModel, Option<Seq<char>>) {
    let raw = trim_chars(v.title_input);
    if raw.len() == 0 {
        (AppModel { status: Some(no_path_message()), ..v }, None)
    } else {
        match expand_tilde(raw, home) {
            None => (AppModel { status: Some(no_home_message()), ..v }, None),
            Some(p) => (v, Some(p)),
        }
    }
}

/// `"Exported N snippet(s) to PATH"`
pub open spec fn exported_message(count: nat, path: Seq<char>) -> Seq<char> {
    "Exported "@ + decimal(count) + " snippet"@ + (if count == 1 {
        Seq::<char>::empty()
    } else {
        "s"@
    }) + " to "@ + path
}

/// What the outcome of an export does to the state.
pub open spec fn finish_export_model(
    v: AppModel,
    path: Seq<char>,
    count: nat,
    outcome: ExportOutcome,
) -> AppModel {
    match outcome {
        ExportOutcome::ParentMissing => AppModel {
            status: Some("Parent directory does not exist."@),
            ..v
        },
        ExportOutcome::AlreadyExists => AppModel { status: Some("File already exists."@), ..v },
        ExportOutcome::Written => AppModel {
            status: Some(exported_message(count, path)),
            mode: Mode::Normal,
            title_input: Seq::empty(),
            title_cursor: 0,
            ..v
        },
        ExportOutcome::Failed(e) => AppModel { status: Some("Export failed: "@ + e@), ..v },
    }
}

impl App {
    /// Handles a key while the export path is typed.
    pub fn handle_export_path_key(&mut self, key: Key) -> (e: Effect)
        requires
            input_cursor_valid(old(self)@),
        ensures
            (final(self)@, e) == export_path_key_model(old(self)@, key),
            input_cursor_valid(final(self)@),
    {
        match key {
            Key::Enter => {
                return Effect::Export;
            },
            Key::Esc => {
                self.mode = Mode::Normal;
                self.title_input.clear();
                self.title_cursor = 0;
            },
            Key::Backspace => {
                if self.title_cursor > 0 {
                    self.title_cursor = self.title_cursor - 1;
                    let c = self.title_cursor;
                    self.title_input.remove(c);
                }
            },
            Key::Left => {
                self.title_cursor = self.title_cursor.saturating_sub(1);
            },
            Key::Right => {
                if self.title_cursor < self.title_input.len() {
                    self.title_cursor = self.title_cursor + 1;
                }
            },
            Key::Char(c) => {
                let at = self.title_cursor;
                self.title_input.insert(at, c);
                let grown = self.title_input.len();
                assert(at < grown);
                self.title_cursor = at + 1;
            },
            _ => {},
        }
        Effect::Nothing
    }

    /// Prepares the export of the composed text to the path typed, given the
    /// home directory (for a leading `~`): gives what to write where, or sets
    /// the status message and gives `None` where the path is unusable.
    pub fn execute_export(&mut self, home: Option<String>) -> (job: Option<ExportJob>)
        ensures
            final(self)@ == export_model(old(self)@, opt_chars(home)).0,
            job is Some <==> export_model(old(self)@, opt_chars(home)).1 is Some,
            job matches Some(j) ==> (j.path@ == export_model(old(self)@, opt_chars(home)).1->0
                && j.contents@ == composed_text_of(old(self)@) && j.count == selected_count_of(
                old(self)@,
            )),
    {
        let raw = trimmed(&self.title_input);
        let n = raw.as_str().unicode_len();
        if n == 0 {
            self.status_message = Some(String::from_str("No path entered."));
            return None;
        }
        let first = raw.as_str().get_char(0);
        let path = if first == '~' {
            match home {
                Some(h) => {
                    let mut p = h;
                    p.append(raw.as_str().substring_char(1, n));
                    assert(raw@.subrange(1, n as int) =~= raw@.drop_first());
                    p
                },
                None => {
                    self.status_message = Some(String::from_str("Cannot expand ~: HOME not set."));
                    return None;
                },
            }
        } else {
            raw
        };
        let contents = self.composed_text();
        let count = match &self.compose_state {
            Some(cs) => cs.selected.len(),
            None => 0,
        };
        Some(ExportJob { path, contents, count })
    }

    /// Records how writing an export went.
    pub fn finish_export(&mut self, job: &ExportJob, outcome: ExportOutcome)
        ensures
            final(self)@ == finish_export_model(old(self)@, job.path@, job.count as nat, outcome),
    {
        match outcome {
            ExportOutcome::ParentMissing => {
                self.status_message = Some(String::from_str("Parent directory does not exist."));
            },
            ExportOutcome::AlreadyExists => {
                self.status_message = Some(String::from_str("File already exists."));
            },
            ExportOutcome::Written => {
                let mut msg = String::from_str("Exported ");
                push_decimal(&mut msg, job.count);
                msg.append(" snippet");
                if job.count != 1 {
                    msg.append("s");
                }
                msg.append(" to ");
                msg.append(job.path.as_str());
                assert(msg@ =~= exported_message(job.count as nat, job.path@));
                self.status_message = Some(msg);
                self.mode = Mode::Normal;
                self.title_input.clear();
                self.title_cursor = 0;
            },
            ExportOutcome::Failed(err) => {
                let mut msg = String::from_str("Export failed: ");
                msg.append(err.as_str());
                self.status_message = Some(msg);
            },
        }
    }
}

/// Where an export goes: a trimmed path that does not start with `~` is used
/// exactly as typed, whatever the home directory; one that does has its `~`
/// replaced by the home directory, or is refused where none is known; an
/// empty path is refused. Preparing an export changes only the status line.
pub proof fn lemma_export_target(v: AppModel, home: Option<Seq<char>>)
    ensures
        ({
            let raw = trim_chars(v.title_input);
            let (after, target) = export_model(v, home);
            &&& raw.len() > 0 && raw[0] != '~' ==> after == v && target == Some(raw)
            &&& raw.len() > 0 && raw[0] == '~' && home is Some ==> after == v && target == Some(
                home->0 + raw.subrange(1, raw.len() as int),
            )
            &&& raw.len() > 0 && raw[0] == '~' && home is None ==> target is None && after
                == AppModel { status: Some("Cannot expand ~: HOME not set."@), ..v }
            &&& raw.len() == 0 ==> target is None && after == AppModel {
                status: Some("No path entered."@),
                ..v
            }
        }),
{
    let raw = trim_chars(v.title_input);
    if raw.len() > 0 {
        assert(raw.drop_first() =~= raw.subrange(1, raw.len() as int));
    }
}

} // verus!
