//! The navigation state: current directory, entry list and selection, the
//! modal input machine, the numeric prefix, token-gated scan reconciliation,
//! and cyclic search.

use vstd::prelude::*;
use vstd::string::StringExecFns;
use crate::entry::{FileEntry, entries_sorted, sort_entries, describe_spec};
use crate::preview::PreviewPane;
use crate::text::{lower_of, lowercase, dec_of, dec_string, contains_sub, contains_str, is_abs_path,
    join_spec, join_path, parent_spec, parent_path};

verus! {

/// The modal input state: exactly one is active at a time.
pub enum InputMode {
    Normal,
    Search { buffer: String, feedback: Option<String> },
    Command { buffer: String, feedback: Option<String> },
    Confirm { message: String, action: ConfirmAction },
}

/// A deferred destructive operation, executed only on confirmation.
pub enum ConfirmAction {
    Delete { entry: FileEntry, path: String },
}

impl Clone for ConfirmAction {
    fn clone(&self) -> (r: Self)
        ensures
            r == *self,
    {
        match self {
            ConfirmAction::Delete { entry, path } => ConfirmAction::Delete {
                entry: entry.clone(),
                path: path.clone(),
            },
        }
    }
}

/// A request to run an external process, handed to the process collaborator.
pub enum ExternalCommand {
    Edit { path: String, name: String },
    Shell { dir: String },
}

/// A directory scan to issue off the control path, tagged with its token.
pub struct ScanRequest {
    pub path: String,
    pub token: u64,
}

/// A filesystem mutation the engine has validated and now asks its caller to
/// perform. The engine itself never touches the filesystem.
pub enum FsAction {
    Rename { src: String, dest: String },
    RemoveFile { path: String },
    RemoveDir { path: String },
    CreateDir { path: String },
    CreateFile { path: String },
    CopyFile { src: String, dest: String },
    CopyDir { src: String, dest: String },
    /// A move attempts an atomic rename first and only on failure falls back
    /// to a copy followed by removal of the source; `fsmodel` states the end
    /// state both routes share.
    MoveFile { src: String, dest: String },
    MoveDir { src: String, dest: String },
}

/// A command the engine has begun and will finish once its caller supplies
/// the filesystem fact it asked for, or reports the outcome of the action it
/// dispatched.
pub enum PendingFs {
    RenameExists { src: String, dest: String, old_name: String, new_name: String },
    MkdirExists { dest: String, name: String },
    TouchExists { dest: String, name: String },
    CopyIsDir { src: String, name: String, is_dir: bool, dest0: String },
    CopyExists { src: String, name: String, is_dir: bool, dest: String },
    MoveIsDir { src: String, name: String, is_dir: bool, dest0: String },
    MoveExists { src: String, name: String, is_dir: bool, dest: String },
    CdResolve,
    Doing { clear: bool, success: String, fail_prefix: String },
}

/// What the engine asks of its caller after an input step.
pub enum Outcome {
    /// Leave the session.
    Quit,
    /// Nothing outside the engine is needed.
    Done,
    /// Issue the directory scan and deliver its result with the token.
    Scan(ScanRequest),
    /// Answer whether the path exists, through `answer_exists`.
    CheckExists { path: String },
    /// Answer whether the path is a directory, through `answer_is_dir`.
    CheckIsDir { path: String },
    /// Canonicalize the path and answer through `answer_resolve`.
    Resolve { path: String },
    /// Perform the mutation and report through `action_done`.
    Perform(FsAction),
}

/// One key press, as the engine reads it.
pub enum Key {
    Char(char),
    Up,
    Down,
    Left,
    Right,
    Enter,
    Esc,
    Backspace,
    Other,
}

/// One alias mapping of the command table.
pub struct AliasPair {
    pub alias: String,
    pub command: String,
}

/// Largest accumulated numeric prefix.
pub const MAX_COUNT: usize = 9999;

/// The aggregate navigation state.
pub struct App {
    pub current_dir: String,
    pub entries: Vec<FileEntry>,
    pub selected: usize,
    pub status: String,
    pub pending_token: Option<u64>,
    pub next_token: u64,
    pub is_loading: bool,
    pub input_mode: InputMode,
    pub pending_count: Option<usize>,
    pub last_search: Option<String>,
    pub last_action_message: Option<String>,
    pub pending_external: Option<ExternalCommand>,
    pub pending_fs: Option<PendingFs>,
    pub preview: PreviewPane,
    pub awaiting_g: bool,
    pub command_aliases: Vec<AliasPair>,
}

impl App {
    /// The invariants that hold between input events.
    pub open spec fn wf(self) -> bool {
        &&& self.entries@.len() == 0 ==> self.selected == 0
        &&& self.entries@.len() > 0 ==> self.selected < self.entries@.len()
        &&& entries_sorted(self.entries@)
        &&& !(self.input_mode is Normal) ==> self.pending_count is None
        &&& match self.pending_count {
            Some(c) => c <= MAX_COUNT,
            None => true,
        }
        &&& match self.pending_token {
            Some(t) => t < self.next_token,
            None => true,
        }
        &&& is_abs_path(self.current_dir@)
    }

    /// The built-in alias table: `rm`, `cp` and `mv` for their long forms.
    pub fn default_aliases() -> (r: Vec<AliasPair>)
        ensures
            r@.len() == 3,
            r@[0].alias@ == "rm"@ && r@[0].command@ == "delete"@,
            r@[1].alias@ == "cp"@ && r@[1].command@ == "copy"@,
            r@[2].alias@ == "mv"@ && r@[2].command@ == "move"@,
    {
        let mut r: Vec<AliasPair> = Vec::new();
        r.push(AliasPair {
            alias: String::from_str("rm"),
            command: String::from_str("delete"),
        });
        r.push(AliasPair {
            alias: String::from_str("cp"),
            command: String::from_str("copy"),
        });
        r.push(AliasPair {
            alias: String::from_str("mv"),
            command: String::from_str("move"),
        });
        r
    }

    /// A fresh session rooted at `current_dir`, with its first scan issued.
    pub fn new(current_dir: String, command_aliases: Vec<AliasPair>) -> (r: (Self, ScanRequest))
        requires
            is_abs_path(current_dir@),
        ensures
            r.0.wf(),
            r.0.current_dir@ == current_dir@,
            r.0.entries@.len() == 0,
            r.0.selected == 0,
            r.0.input_mode is Normal,
            r.0.pending_token == Some(0u64),
            r.0.next_token == 1u64,
            r.0.is_loading,
            r.0.command_aliases == command_aliases,
            r.1.token == 0u64,
            r.1.path@ == current_dir@,
    {
        let mut app = App {
            current_dir,
            entries: Vec::new(),
            selected: 0,
            status: String::new(),
            pending_token: None,
            next_token: 0,
            is_loading: false,
            input_mode: InputMode::Normal,
            pending_count: None,
            last_search: None,
            last_action_message: None,
            pending_external: None,
            pending_fs: None,
            preview: PreviewPane::loading(),
            awaiting_g: false,
            command_aliases,
        };
        let scan = app.refresh_async(true);
        (app, scan)
    }

    /// Issues a new scan of the current directory: assigns the next token,
    /// supersedes any pending one, and optionally clears the shown entries.
    pub fn refresh_async(&mut self, clear_entries: bool) -> (r: ScanRequest)
        requires
            old(self).wf(),
            old(self).next_token < u64::MAX,
        ensures
            final(self).wf(),
            r.token == old(self).next_token,
            r.path@ == old(self).current_dir@,
            final(self).next_token == old(self).next_token + 1,
            final(self).pending_token == Some(r.token),
            final(self).is_loading,
            final(self).current_dir == old(self).current_dir,
            final(self).status@ == "Loading "@ + old(self).current_dir@ + " ..."@,
            clear_entries ==> final(self).entries@.len() == 0 && final(self).selected == 0,
            !clear_entries ==> final(self).entries == old(self).entries && final(self).selected
                == old(self).selected,
            final(self).input_mode == old(self).input_mode,
            final(self).last_search == old(self).last_search,
            final(self).last_action_message == old(self).last_action_message,
            final(self).pending_count == old(self).pending_count,
            final(self).command_aliases == old(self).command_aliases,
            final(self).pending_fs == old(self).pending_fs,
            final(self).pending_external == old(self).pending_external,
            final(self).awaiting_g == old(self).awaiting_g,
    {
        if clear_entries {
            self.entries = Vec::new();
            self.selected = 0;
            self.preview = PreviewPane::loading();
        }
        let token = self.next_token;
        self.next_token = self.next_token + 1;
        self.pending_token = Some(token);
        self.is_loading = true;
        let mut status = String::from_str("Loading ");
        status.append(self.current_dir.as_str());
        status.append(" ...");
        self.status = status;
        ScanRequest { path: self.current_dir.clone(), token }
    }

    /// As `refresh_async`, also recording the message to show once the scan
    /// lands.
    pub fn refresh_with_message(&mut self, clear_entries: bool, message: String) -> (r: ScanRequest)
        requires
            old(self).wf(),
            old(self).next_token < u64::MAX,
        ensures
            final(self).wf(),
            r.token == old(self).next_token,
            r.path@ == old(self).current_dir@,
            final(self).next_token == old(self).next_token + 1,
            final(self).pending_token == Some(r.token),
            final(self).is_loading,
            final(self).current_dir == old(self).current_dir,
            final(self).last_action_message == Some(message),
            clear_entries ==> final(self).entries@.len() == 0 && final(self).selected == 0,
            !clear_entries ==> final(self).entries == old(self).entries && final(self).selected
                == old(self).selected,
            final(self).input_mode == old(self).input_mode,
            final(self).pending_fs == old(self).pending_fs,
            final(self).pending_external == old(self).pending_external,
            final(self).pending_count == old(self).pending_count,
            final(self).last_search == old(self).last_search,
            final(self).awaiting_g == old(self).awaiting_g,
    {
        self.last_action_message = Some(message);
        self.refresh_async(clear_entries)
    }

    /// The entry under the cursor, if any.
    pub fn selected_entry(&self) -> (r: Option<FileEntry>)
        requires
            self.wf(),
        ensures
            self.entries@.len() == 0 ==> r is None,
            self.entries@.len() > 0 ==> r == Some(self.entries@[self.selected as int]),
    {
        if self.entries.len() == 0 {
            None
        } else {
            Some(self.entries[self.selected].clone())
        }
    }

    /// The absolute path of the entry under the cursor, if any.
    pub fn selected_path(&self) -> (r: Option<String>)
        requires
            self.wf(),
        ensures
            self.entries@.len() == 0 ==> r is None,
            self.entries@.len() > 0 ==> (r matches Some(p) && p@ == join_spec(
                self.current_dir@,
                self.entries@[self.selected as int].name@,
            )),
    {
        if self.entries.len() == 0 {
            None
        } else {
            Some(join_path(self.current_dir.as_str(), self.entries[self.selected].name.as_str()))
        }
    }

    /// Hands out a pending external-process request, at most once.
    pub fn take_external_command(&mut self) -> (r: Option<ExternalCommand>)
        ensures
            r == old(self).pending_external,
            final(self).pending_external is None,
            *final(self) == (App { pending_external: None, ..*old(self) }),
    {
        self.pending_external.take()
    }

    /// The index the selection wraps to: mathematical modulo, so movement
    /// cycles at both ends.
    pub open spec fn wrapped_index(sel: int, delta: int, len: int) -> int {
        (sel + delta) % len
    }

    /// Moves the selection by `delta`, wrapping cyclically; on an empty list
    /// the selection stays at zero.
    pub fn move_selection(&mut self, delta: isize)
        requires
            old(self).wf(),
        ensures
            final(self).wf(),
            old(self).entries@.len() == 0 ==> final(self).selected == 0,
            old(self).entries@.len() > 0 ==> final(self).selected == Self::wrapped_index(
                old(self).selected as int,
                delta as int,
                old(self).entries@.len() as int,
            ),
            final(self).entries == old(self).entries,
            final(self).current_dir == old(self).current_dir,
            final(self).status == old(self).status,
            final(self).input_mode == old(self).input_mode,
            final(self).pending_token == old(self).pending_token,
            final(self).next_token == old(self).next_token,
            final(self).last_search == old(self).last_search,
            final(self).pending_count == old(self).pending_count,
            final(self).awaiting_g == old(self).awaiting_g,
    {
        if self.entries.len() == 0 {
            self.selected = 0;
            self.preview = PreviewPane::empty();
            return ;
        }
        let len = self.entries.len();
        let (neg, mag): (bool, usize) = if delta >= 0 {
            (false, delta as usize)
        } else if delta == isize::MIN {
            (true, (isize::MAX as usize) + 1)
        } else {
            (true, (-delta) as usize)
        };
        let step = mag % len;
        let sel = self.selected;
        let next = if !neg {
            if step < len - sel {
                sel + step
            } else {
                step - (len - sel)
            }
        } else {
            if step <= sel {
                sel - step
            } else {
                sel + (len - step)
            }
        };
        proof {
            Self::lemma_wrap(sel as int, delta as int, neg, mag as int, len as int, next as int);
        }
        self.selected = next;
    }

    proof fn lemma_wrap(sel: int, delta: int, neg: bool, mag: int, len: int, next: int)
        requires
            0 < len,
            0 <= sel < len,
            mag >= 0,
            !neg ==> delta == mag,
            neg ==> delta == -mag,
            ({
                let step = mag % len;
                if !neg {
                    next == if step < len - sel {
                        sel + step
                    } else {
                        step - (len - sel)
                    }
                } else {
                    next == if step <= sel {
                        sel - step
                    } else {
                        sel + (len - step)
                    }
                }
            }),
        ensures
            next == (sel + delta) % len,
    {
        let step = mag % len;
        vstd::arithmetic::div_mod::lemma_mod_bound(mag, len);
        assert(0 <= step < len);
        assert(0 <= next < len);
        vstd::arithmetic::div_mod::lemma_small_mod(next as nat, len as nat);
        if !neg {
            assert((sel + delta) % len == (sel + step) % len) by {
                vstd::arithmetic::div_mod::lemma_add_mod_noop(sel, delta, len);
                vstd::arithmetic::div_mod::lemma_add_mod_noop(sel, step, len);
                vstd::arithmetic::div_mod::lemma_mod_twice(delta, len);
                assert(delta % len == step % len) by {
                    vstd::arithmetic::div_mod::lemma_mod_twice(mag, len);
                }
            }
            if step < len - sel {
                vstd::arithmetic::div_mod::lemma_small_mod((sel + step) as nat, len as nat);
            } else {
                assert(next == sel + step - len);
                vstd::arithmetic::div_mod::lemma_mod_sub_multiples_vanish(sel + step, len);
                vstd::arithmetic::div_mod::lemma_small_mod(next as nat, len as nat);
            }
        } else {
            assert((sel + delta) % len == (sel - step) % len) by {
                vstd::arithmetic::div_mod::lemma_sub_mod_noop(sel, mag, len);
                vstd::arithmetic::div_mod::lemma_sub_mod_noop(sel, step, len);
                vstd::arithmetic::div_mod::lemma_mod_twice(mag, len);
            }
            if step <= sel {
                vstd::arithmetic::div_mod::lemma_small_mod((sel - step) as nat, len as nat);
            } else {
                assert(next == sel - step + len);
                vstd::arithmetic::div_mod::lemma_mod_add_multiples_vanish(sel - step, len);
                vstd::arithmetic::div_mod::lemma_small_mod(next as nat, len as nat);
            }
        }
    }

    /// The saturated product of a movement direction and a repeat count.
    pub open spec fn sat_mul_spec(a: int, b: int) -> int {
        let p = a * b;
        if p > isize::MAX as int {
            isize::MAX as int
        } else if p < isize::MIN as int {
            isize::MIN as int
        } else {
            p
        }
    }

    /// Moves the selection by `delta` scaled by the consumed numeric prefix
    /// (default 1).
    pub fn move_selection_by_count(&mut self, delta: isize)
        requires
            old(self).wf(),
        ensures
            final(self).wf(),
            final(self).pending_count is None,
            ({
                let count = match old(self).pending_count {
                    Some(c) => c as int,
                    None => 1,
                };
                let scaled = Self::sat_mul_spec(delta as int, count);
                &&& old(self).entries@.len() == 0 ==> final(self).selected == 0
                &&& old(self).entries@.len() > 0 ==> final(self).selected == Self::wrapped_index(
                    old(self).selected as int,
                    scaled,
                    old(self).entries@.len() as int,
                )
            }),
            final(self).entries == old(self).entries,
            final(self).status == old(self).status,
            final(self).input_mode == old(self).input_mode,
            final(self).last_search == old(self).last_search,
            final(self).awaiting_g == old(self).awaiting_g,
    {
        let count = self.consume_count_or(1);
        proof {
            assert((delta as i128) * (count as i128) <= i128::MAX && (delta as i128) * (count
                as i128) >= i128::MIN) by (nonlinear_arith)
                requires
                    -0x8000_0000_0000_0000 <= delta as i128 <= 0x7fff_ffff_ffff_ffff,
                    0 <= count as i128 <= 9999,
            ;
        }
        let wide: i128 = (delta as i128) * (count as i128);
        let scaled: isize = if wide > isize::MAX as i128 {
            isize::MAX
        } else if wide < isize::MIN as i128 {
            isize::MIN
        } else {
            wide as isize
        };
        self.move_selection(scaled);
    }

    /// Folds one digit into the numeric prefix, capped at `MAX_COUNT`, and
    /// shows the running count.
    pub fn accumulate_count(&mut self, digit: char)
        requires
            old(self).wf(),
            old(self).input_mode is Normal,
        ensures
            final(self).wf(),
            ({
                let u = digit as u32;
                if 48 <= u <= 57 {
                    let d = (u - 48) as int;
                    let cur = match old(self).pending_count {
                        Some(c) => c as int,
                        None => 0,
                    };
                    let next = if cur * 10 + d > MAX_COUNT as int {
                        MAX_COUNT as int
                    } else {
                        cur * 10 + d
                    };
                    final(self).pending_count == Some(next as usize) && final(self).status@
                        == "Count: "@ + dec_of(next as nat)
                } else {
                    final(self).pending_count == old(self).pending_count && final(self).status
                        == old(self).status
                }
            }),
            final(self).entries == old(self).entries,
            final(self).selected == old(self).selected,
            final(self).input_mode == old(self).input_mode,
            final(self).awaiting_g == old(self).awaiting_g,
    {
        let u = digit as u32;
        if 48 <= u && u <= 57 {
            let d = (u - 48) as usize;
            let cur = match self.pending_count {
                Some(c) => c,
                None => 0,
            };
            let mut next = cur * 10 + d;
            if next > MAX_COUNT {
                next = MAX_COUNT;
            }
            self.pending_count = Some(next);
            let mut status = String::from_str("Count: ");
            let n = dec_string(next as u64);
            status.append(n.as_str());
            self.status = status;
        }
    }

    /// Takes the numeric prefix, or the given default.
    pub fn consume_count_or(&mut self, default: usize) -> (r: usize)
        ensures
            r == match old(self).pending_count {
                Some(c) => c,
                None => default,
            },
            *final(self) == (App { pending_count: None, ..*old(self) }),
    {
        match self.pending_count.take() {
            Some(c) => c,
            None => default,
        }
    }

    /// Takes the numeric prefix, if one was accumulated.
    pub fn take_count(&mut self) -> (r: Option<usize>)
        ensures
            r == old(self).pending_count,
            *final(self) == (App { pending_count: None, ..*old(self) }),
    {
        self.pending_count.take()
    }

    /// Drops any accumulated numeric prefix.
    pub fn clear_pending_count(&mut self)
        ensures
            *final(self) == (App { pending_count: None, ..*old(self) }),
    {
        self.pending_count = None;
    }

    /// Jumps to `index`, clamped to the last entry.
    pub fn jump_to_index(&mut self, index: usize)
        requires
            old(self).wf(),
        ensures
            final(self).wf(),
            old(self).entries@.len() == 0 ==> final(self).selected == 0,
            old(self).entries@.len() > 0 ==> final(self).selected == if index
                < old(self).entries@.len() {
                index as int
            } else {
                old(self).entries@.len() - 1
            },
            final(self).entries == old(self).entries,
            final(self).status == old(self).status,
            final(self).input_mode == old(self).input_mode,
            final(self).pending_count == old(self).pending_count,
            final(self).awaiting_g == old(self).awaiting_g,
            final(self).last_search == old(self).last_search,
    {
        if self.entries.len() == 0 {
            self.selected = 0;
            self.preview = PreviewPane::empty();
            return ;
        }
        let max_idx = self.entries.len() - 1;
        self.selected = if index < max_idx {
            index
        } else {
            max_idx
        };
    }

    /// Jumps to the last entry, if any.
    pub fn jump_to_end(&mut self)
        requires
            old(self).wf(),
        ensures
            final(self).wf(),
            old(self).entries@.len() == 0 ==> *final(self) == *old(self),
            old(self).entries@.len() > 0 ==> final(self).selected == old(self).entries@.len() - 1,
            final(self).entries == old(self).entries,
            final(self).status == old(self).status,
            final(self).input_mode == old(self).input_mode,
            final(self).pending_count == old(self).pending_count,
            final(self).awaiting_g == old(self).awaiting_g,
            final(self).last_search == old(self).last_search,
    {
        if self.entries.len() > 0 {
            self.selected = self.entries.len() - 1;
        }
    }

    /// Opens the selected directory: optimistically moves there and issues
    /// the scan; a non-directory selection only reports itself.
    pub fn enter_selection(&mut self) -> (r: Option<ScanRequest>)
        requires
            old(self).wf(),
            old(self).next_token < u64::MAX,
        ensures
            final(self).wf(),
            enter_step(*old(self), *final(self), r),
            old(self).input_mode is Normal ==> final(self).input_mode == old(self).input_mode,
            final(self).pending_count == old(self).pending_count,
            final(self).awaiting_g == old(self).awaiting_g,
            final(self).pending_fs == old(self).pending_fs,
            final(self).pending_external == old(self).pending_external,
    {
        if self.entries.len() == 0 {
            return None;
        }
        let entry = self.entries[self.selected].clone();
        if entry.is_dir {
            self.current_dir = join_path(self.current_dir.as_str(), entry.name.as_str());
            let scan = self.refresh_async(true);
            self.reset_search_state();
            Some(scan)
        } else {
            let mut status = String::from_str("'");
            status.append(entry.name.as_str());
            status.append("' is not a directory");
            self.status = status;
            None
        }
    }

    /// Moves to the parent directory, if there is one, and issues the scan.
    pub fn open_parent(&mut self) -> (r: Option<ScanRequest>)
        requires
            old(self).wf(),
            old(self).next_token < u64::MAX,
        ensures
            final(self).wf(),
            parent_step(*old(self), *final(self), r),
            old(self).input_mode is Normal ==> final(self).input_mode == old(self).input_mode,
            final(self).pending_count == old(self).pending_count,
            final(self).awaiting_g == old(self).awaiting_g,
            final(self).pending_fs == old(self).pending_fs,
            final(self).pending_external == old(self).pending_external,
    {
        match parent_path(self.current_dir.as_str()) {
            Some(parent) => {
                self.current_dir = parent;
                let scan = self.refresh_async(true);
                self.reset_search_state();
                Some(scan)
            },
            None => None,
        }
    }

    /// Enters search mode, pre-seeding the buffer with the last query.
    pub fn start_search(&mut self)
        requires
            old(self).wf(),
        ensures
            final(self).wf(),
            final(self).input_mode matches InputMode::Search { buffer, feedback } && feedback
                is None && buffer@ == match old(self).last_search {
                Some(q) => q@,
                None => Seq::<char>::empty(),
            },
            final(self).pending_count is None,
            final(self).status@ == "Search: type to filter, Enter to apply"@,
            same_but_mode_count_status(*old(self), *final(self)),
    {
        self.clear_pending_count();
        let buffer = match &self.last_search {
            Some(q) => q.clone(),
            None => String::new(),
        };
        self.input_mode = InputMode::Search { buffer, feedback: None };
        self.status = String::from_str("Search: type to filter, Enter to apply");
    }

    /// Enters command mode with an empty buffer.
    pub fn start_command(&mut self)
        requires
            old(self).wf(),
        ensures
            final(self).wf(),
            final(self).input_mode matches InputMode::Command { buffer, feedback } && feedback
                is None && buffer@ == Seq::<char>::empty(),
            final(self).pending_count is None,
            final(self).status@ == "Command: Enter to run, Esc to cancel"@,
            same_but_mode_count_status(*old(self), *final(self)),
    {
        self.clear_pending_count();
        self.input_mode = InputMode::Command { buffer: String::new(), feedback: None };
        self.status = String::from_str("Command: Enter to run, Esc to cancel");
    }

    /// Leaves any overlay mode, discarding its buffer.
    pub fn cancel_overlay(&mut self)
        requires
            old(self).wf(),
        ensures
            final(self).wf(),
            *final(self) == (App {
                input_mode: InputMode::Normal,
                pending_count: None,
                ..*old(self)
            }),
    {
        self.input_mode = InputMode::Normal;
        self.clear_pending_count();
    }

    /// Sets the inline feedback of an overlay mode, if one is active.
    pub fn set_overlay_feedback(&mut self, message: String)
        requires
            old(self).wf(),
        ensures
            final(self).wf(),
            match old(self).input_mode {
                InputMode::Search { buffer, .. } => *final(self) == (App {
                    input_mode: (InputMode::Search { buffer, feedback: Some(message) }),
                    ..*old(self)
                }),
                InputMode::Command { buffer, .. } => *final(self) == (App {
                    input_mode: (InputMode::Command { buffer, feedback: Some(message) }),
                    ..*old(self)
                }),
                _ => *final(self) == *old(self),
            },
    {
        let mut mode = InputMode::Normal;
        core::mem::swap(&mut self.input_mode, &mut mode);
        match mode {
            InputMode::Search { buffer, .. } => {
                self.input_mode = InputMode::Search { buffer, feedback: Some(message) };
            },
            InputMode::Command { buffer, .. } => {
                self.input_mode = InputMode::Command { buffer, feedback: Some(message) };
            },
            other => {
                self.input_mode = other;
            },
        }
    }

    /// Clears the inline feedback of an overlay mode, if one is active.
    pub fn clear_overlay_feedback(&mut self)
        requires
            old(self).wf(),
        ensures
            final(self).wf(),
            match old(self).input_mode {
                InputMode::Search { buffer, .. } => *final(self) == (App {
                    input_mode: (InputMode::Search { buffer, feedback: None }),
                    ..*old(self)
                }),
                InputMode::Command { buffer, .. } => *final(self) == (App {
                    input_mode: (InputMode::Command { buffer, feedback: None }),
                    ..*old(self)
                }),
                _ => *final(self) == *old(self),
            },
    {
        let mut mode = InputMode::Normal;
        core::mem::swap(&mut self.input_mode, &mut mode);
        match mode {
            InputMode::Search { buffer, .. } => {
                self.input_mode = InputMode::Search { buffer, feedback: None };
            },
            InputMode::Command { buffer, .. } => {
                self.input_mode = InputMode::Command { buffer, feedback: None };
            },
            other => {
                self.input_mode = other;
            },
        }
    }

    /// Keeps the selection a valid index after the entry list was replaced.
    fn clamp_selection(&mut self)
        requires
            entries_sorted(old(self).entries@),
            old(self).pending_count matches Some(c) ==> c <= MAX_COUNT,
            !(old(self).input_mode is Normal) ==> old(self).pending_count is None,
            old(self).pending_token matches Some(t) ==> t < old(self).next_token,
            is_abs_path(old(self).current_dir@),
        ensures
            final(self).wf(),
            final(self).selected == if old(self).entries@.len() == 0 {
                0
            } else if old(self).selected < old(self).entries@.len() {
                old(self).selected as int
            } else {
                old(self).entries@.len() - 1
            },
            final(self).entries == old(self).entries,
            final(self).status == old(self).status,
            final(self).input_mode == old(self).input_mode,
            final(self).last_action_message == old(self).last_action_message,
            final(self).pending_token == old(self).pending_token,
            final(self).is_loading == old(self).is_loading,
    {
        if self.selected >= self.entries.len() {
            if self.entries.len() == 0 {
                self.selected = 0;
            } else {
                self.selected = self.entries.len() - 1;
            }
        }
    }

    /// Reconciles a delivered scan result: a result whose token is not the
    /// pending one changes nothing at all; a current one replaces the entry
    /// list (sorted into the listing order) or reports the scan error.
    pub fn handle_scan_result(
        &mut self,
        path: &str,
        token: u64,
        result: Result<Vec<FileEntry>, String>,
    )
        requires
            old(self).wf(),
        ensures
            final(self).wf(),
            old(self).pending_token != Some(token) ==> *final(self) == *old(self),
            old(self).pending_token == Some(token) ==> ({
                &&& final(self).pending_token is None
                &&& !final(self).is_loading
                &&& match result {
                    Ok(list) => {
                        &&& final(self).entries@.to_multiset() == list@.to_multiset()
                        &&& entries_sorted(final(self).entries@)
                        &&& final(self).entries@.len() == list@.len()
                        &&& final(self).selected == (if list@.len() == 0 {
                            0int
                        } else if old(self).selected < list@.len() {
                            old(self).selected as int
                        } else {
                            list@.len() - 1
                        })
                        &&& final(self).last_action_message is None
                        &&& final(self).status@ == match old(self).last_action_message {
                            Some(m) => m@,
                            None => "Loaded "@ + dec_of(list@.len() as nat) + " entries from "@
                                + path@,
                        }
                    },
                    Err(e) => {
                        &&& final(self).entries@.len() == 0
                        &&& final(self).selected == 0
                        &&& final(self).last_action_message is None
                        &&& final(self).status@ == "Error loading "@ + path@ + ": "@ + e@
                    },
                }
            }),
    {
        let matches_pending = match self.pending_token {
            Some(t) => t == token,
            None => false,
        };
        if !matches_pending {
            return ;
        }
        self.pending_token = None;
        self.is_loading = false;
        match result {
            Ok(list) => {
                let ghost n = list@.len();
                let sorted = sort_entries(list);
                self.entries = sorted;
                self.clamp_selection();
                match self.last_action_message.take() {
                    Some(message) => {
                        self.status = message;
                    },
                    None => {
                        let mut status = String::from_str("Loaded ");
                        let d = dec_string(self.entries.len() as u64);
                        status.append(d.as_str());
                        status.append(" entries from ");
                        status.append(path);
                        self.status = status;
                        proof {
                            assert(final(self).entries@.len() == n);
                        }
                    },
                }
            },
            Err(e) => {
                self.entries = Vec::new();
                self.selected = 0;
                self.last_action_message = None;
                let mut status = String::from_str("Error loading ");
                status.append(path);
                status.append(": ");
                status.append(e.as_str());
                self.status = status;
            },
        }
    }

    /// Notes that the scan worker went away.
    pub fn worker_disconnected(&mut self)
        requires
            old(self).wf(),
        ensures
            final(self).wf(),
            final(self).status@ == "Filesystem worker disconnected"@,
            !final(self).is_loading,
            final(self).entries == old(self).entries,
            final(self).selected == old(self).selected,
    {
        self.status = String::from_str("Filesystem worker disconnected");
        self.is_loading = false;
    }

    /// Clears the remembered search query and any search buffer.
    pub fn reset_search_state(&mut self)
        requires
            old(self).wf(),
        ensures
            final(self).wf(),
            final(self).last_search is None,
            final(self).entries == old(self).entries,
            final(self).selected == old(self).selected,
            final(self).current_dir == old(self).current_dir,
            final(self).status == old(self).status,
            final(self).pending_token == old(self).pending_token,
            final(self).next_token == old(self).next_token,
            final(self).is_loading == old(self).is_loading,
            final(self).last_action_message == old(self).last_action_message,
            final(self).pending_count == old(self).pending_count,
            final(self).pending_fs == old(self).pending_fs,
            final(self).pending_external == old(self).pending_external,
            final(self).awaiting_g == old(self).awaiting_g,
            old(self).input_mode is Normal ==> final(self).input_mode == old(self).input_mode,
    {
        self.last_search = None;
        let mut mode = InputMode::Normal;
        core::mem::swap(&mut self.input_mode, &mut mode);
        match mode {
            InputMode::Search { feedback, .. } => {
                self.input_mode = InputMode::Search { buffer: String::new(), feedback };
            },
            other => {
                self.input_mode = other;
            },
        }
    }
}



/// When the forward scan reports no match over `k` positions, none of those
/// positions matches.
proof fn lemma_match_from_covers(s: Seq<FileEntry>, needle: Seq<char>, start: int, k: nat)
    requires
        0 < s.len(),
        0 <= start < s.len(),
        match_from(s, needle, start, k) is None,
    ensures
        forall|j: int| 0 <= j < k ==> !entry_matches(s[#[trigger] ((start + j) % (s.len() as int))], needle),
    decreases k,
{
    let len = s.len() as int;
    if k > 0 {
        let start2: int = if start + 1 == len {
            0
        } else {
            start + 1
        };
        lemma_match_from_covers(s, needle, start2, (k - 1) as nat);
        assert forall|j: int| 0 <= j < k implies !entry_matches(
            s[#[trigger] ((start + j) % len)],
            needle,
        ) by {
            if j == 0 {
                vstd::arithmetic::div_mod::lemma_small_mod(start as nat, len as nat);
            } else {
                assert(!entry_matches(s[(start2 + (j - 1)) % len], needle));
                if start + 1 == len {
                    vstd::arithmetic::div_mod::lemma_mod_add_multiples_vanish(j - 1, len);
                    assert((start + j) % len == (j - 1) % len);
                }
            }
        }
    }
}

/// A full forward cycle that reports no match leaves no entry matching.
pub proof fn lemma_search_complete(s: Seq<FileEntry>, needle: Seq<char>, start: int)
    requires
        0 < s.len(),
        0 <= start < s.len(),
        match_from(s, needle, start, s.len() as nat) is None,
    ensures
        forall|i: int| 0 <= i < s.len() ==> !entry_matches(s[i], needle),
{
    let len = s.len() as int;
    lemma_match_from_covers(s, needle, start, s.len() as nat);
    assert forall|i: int| 0 <= i < len implies !entry_matches(s[i], needle) by {
        let j: int = if i >= start {
            i - start
        } else {
            i + len - start
        };
        if i >= start {
            vstd::arithmetic::div_mod::lemma_small_mod(i as nat, len as nat);
        } else {
            vstd::arithmetic::div_mod::lemma_mod_add_multiples_vanish(i, len);
            vstd::arithmetic::div_mod::lemma_small_mod(i as nat, len as nat);
        }
        assert((start + j) % len == i);
        assert(!entry_matches(s[(start + j) % len], needle));
    }
}

/// When the backward scan reports no match over `k` positions, none of those
/// positions matches.
proof fn lemma_match_from_rev_covers(s: Seq<FileEntry>, needle: Seq<char>, start: int, k: nat)
    requires
        0 < s.len(),
        0 <= start < s.len(),
        match_from_rev(s, needle, start, k) is None,
    ensures
        forall|j: int| 0 <= j < k ==> !entry_matches(s[#[trigger] ((start - j) % (s.len() as int))], needle),
    decreases k,
{
    let len = s.len() as int;
    if k > 0 {
        let start2: int = if start == 0 {
            len - 1
        } else {
            start - 1
        };
        lemma_match_from_rev_covers(s, needle, start2, (k - 1) as nat);
        assert forall|j: int| 0 <= j < k implies !entry_matches(
            s[#[trigger] ((start - j) % len)],
            needle,
        ) by {
            if j == 0 {
                vstd::arithmetic::div_mod::lemma_small_mod(start as nat, len as nat);
            } else {
                assert(!entry_matches(s[(start2 - (j - 1)) % len], needle));
                if start == 0 {
                    vstd::arithmetic::div_mod::lemma_mod_add_multiples_vanish(-j, len);
                    assert((start - j) % len == (len - j) % len);
                }
            }
        }
    }
}

/// A full backward cycle that reports no match leaves no entry matching.
pub proof fn lemma_search_rev_complete(s: Seq<FileEntry>, needle: Seq<char>, start: int)
    requires
        0 < s.len(),
        0 <= start < s.len(),
        match_from_rev(s, needle, start, s.len() as nat) is None,
    ensures
        forall|i: int| 0 <= i < s.len() ==> !entry_matches(s[i], needle),
{
    let len = s.len() as int;
    lemma_match_from_rev_covers(s, needle, start, s.len() as nat);
    assert forall|i: int| 0 <= i < len implies !entry_matches(s[i], needle) by {
        let j: int = if start >= i {
            start - i
        } else {
            start + len - i
        };
        if start >= i {
            vstd::arithmetic::div_mod::lemma_small_mod(i as nat, len as nat);
        } else {
            vstd::arithmetic::div_mod::lemma_mod_sub_multiples_vanish(i, len);
            vstd::arithmetic::div_mod::lemma_small_mod(i as nat, len as nat);
        }
        assert((start - j) % len == i);
        assert(!entry_matches(s[(start - j) % len], needle));
    }
}

/// Everything but the mode, the numeric prefix and the status is unchanged.
pub open spec fn same_but_mode_count_status(pre: App, post: App) -> bool {
    &&& post.entries == pre.entries
    &&& post.selected == pre.selected
    &&& post.current_dir == pre.current_dir
    &&& post.pending_token == pre.pending_token
    &&& post.next_token == pre.next_token
    &&& post.is_loading == pre.is_loading
    &&& post.last_search == pre.last_search
    &&& post.last_action_message == pre.last_action_message
    &&& post.pending_external == pre.pending_external
    &&& post.pending_fs == pre.pending_fs
    &&& post.preview == pre.preview
    &&& post.awaiting_g == pre.awaiting_g
    &&& post.command_aliases == pre.command_aliases
}

/// What the preview should be rebuilt from for the current state.
pub enum PreviewTarget {
    Loading,
    Empty,
    Entry { entry: FileEntry, path: String },
}

/// The entry's lowercased name holds the (lowercased) query.
pub open spec fn entry_matches(e: FileEntry, needle: Seq<char>) -> bool {
    contains_sub(lower_of(e.name@), needle)
}

/// The first matching index scanning forward cyclically from `start`, over at
/// most `k` positions.
pub open spec fn match_from(s: Seq<FileEntry>, needle: Seq<char>, start: int, k: nat) -> Option<
    int,
>
    recommends
        0 < s.len(),
        0 <= start < s.len(),
    decreases k,
{
    if k == 0 {
        None
    } else if entry_matches(s[start], needle) {
        Some(start)
    } else {
        match_from(
            s,
            needle,
            if start + 1 == s.len() {
                0
            } else {
                start + 1
            },
            (k - 1) as nat,
        )
    }
}

/// The first matching index scanning backward cyclically from `start`, over
/// at most `k` positions.
pub open spec fn match_from_rev(s: Seq<FileEntry>, needle: Seq<char>, start: int, k: nat) -> Option<
    int,
>
    recommends
        0 < s.len(),
        0 <= start < s.len(),
    decreases k,
{
    if k == 0 {
        None
    } else if entry_matches(s[start], needle) {
        Some(start)
    } else {
        match_from_rev(
            s,
            needle,
            if start == 0 {
                s.len() - 1
            } else {
                start - 1
            },
            (k - 1) as nat,
        )
    }
}


/// How applying a committed query steps the engine.
pub open spec fn apply_search_step(pre: App, post: App, query: Seq<char>) -> bool {
    &&& post.entries == pre.entries
    &&& (pre.entries@.len() == 0 ==> ({
        &&& post.selected == pre.selected
        &&& post.status@ == "No entries to search"@
        &&& post.last_search == pre.last_search
    }))
    &&& (pre.entries@.len() > 0 ==> ({
        let found = match_from(
            pre.entries@,
            lower_of(query),
            pre.selected as int,
            pre.entries@.len() as nat,
        );
        &&& (post.last_search matches Some(q) && q@ == query)
        &&& match found {
            Some(i) => post.selected == i && post.status@ == "Match: "@ + pre.entries@[i].name@,
            None => post.selected == pre.selected && post.status@ == "No match for '"@ + query
                + "'"@,
        }
    }))
}

/// How repeating the last query forward steps the engine.
pub open spec fn search_next_step(pre: App, post: App) -> bool {
    &&& post.entries == pre.entries
    &&& post.last_search == pre.last_search
    &&& (pre.entries@.len() == 0 ==> ({
        &&& post.selected == pre.selected
        &&& post.status@ == "No entries to search"@
    }))
    &&& (pre.entries@.len() > 0 && pre.last_search is None ==> post.selected == pre.selected
        && post.status@ == "No previous search"@)
    &&& ((pre.entries@.len() > 0 && pre.last_search is Some) ==> ({
        let q = pre.last_search->0;
        let len = pre.entries@.len() as int;
        let start = (pre.selected + 1) % len;
        let found = match_from(pre.entries@, lower_of(q@), start, len as nat);
        match found {
            Some(i) => post.selected == i && post.status@ == "Match: "@ + pre.entries@[i].name@,
            None => post.selected == pre.selected && post.status@ == "No more matches for '"@
                + q@ + "'"@,
        }
    }))
}

/// How repeating the last query backward steps the engine.
pub open spec fn search_prev_step(pre: App, post: App) -> bool {
    &&& post.entries == pre.entries
    &&& post.last_search == pre.last_search
    &&& (pre.entries@.len() == 0 ==> ({
        &&& post.selected == pre.selected
        &&& post.status@ == "No entries to search"@
    }))
    &&& (pre.entries@.len() > 0 && pre.last_search is None ==> post.selected == pre.selected
        && post.status@ == "No previous search"@)
    &&& ((pre.entries@.len() > 0 && pre.last_search is Some) ==> ({
        let q = pre.last_search->0;
        let len = pre.entries@.len() as int;
        let start = (pre.selected + len - 1) % len;
        let found = match_from_rev(pre.entries@, lower_of(q@), start, len as nat);
        match found {
            Some(i) => post.selected == i && post.status@ == "Match: "@ + pre.entries@[i].name@,
            None => post.selected == pre.selected && post.status@
                == "No previous matches for '"@ + q@ + "'"@,
        }
    }))
}

/// How opening the selection steps the engine.
pub open spec fn enter_step(pre: App, post: App, r: Option<ScanRequest>) -> bool {
    &&& (pre.entries@.len() == 0 ==> r is None && post == pre)
    &&& (pre.entries@.len() > 0 ==> ({
        let e = pre.entries@[pre.selected as int];
        if e.is_dir {
            &&& (r matches Some(scan) && scan.path@ == join_spec(pre.current_dir@, e.name@)
                && scan.token == pre.next_token)
            &&& post.current_dir@ == join_spec(pre.current_dir@, e.name@)
            &&& post.pending_token == Some(pre.next_token)
            &&& post.entries@.len() == 0
            &&& post.last_search is None
        } else {
            &&& r is None
            &&& post.current_dir == pre.current_dir
            &&& post.entries == pre.entries
            &&& post.selected == pre.selected
            &&& post.last_search == pre.last_search
            &&& post.status@ == "'"@ + e.name@ + "' is not a directory"@
        }
    }))
}

/// How moving to the parent steps the engine.
pub open spec fn parent_step(pre: App, post: App, r: Option<ScanRequest>) -> bool {
    match parent_spec(pre.current_dir@) {
        Some(p) => {
            &&& (r matches Some(scan) && scan.path@ == p && scan.token == pre.next_token)
            &&& post.current_dir@ == p
            &&& post.pending_token == Some(pre.next_token)
            &&& post.entries@.len() == 0
            &&& post.last_search is None
        },
        None => r is None && post == pre,
    }
}

impl App {
    /// What the preview pane should show for the current state: the load
    /// placeholder, the empty placeholder, or a preview of the selection.
    pub fn preview_target(&self) -> (r: PreviewTarget)
        requires
            self.wf(),
        ensures
            self.is_loading ==> r is Loading,
            !self.is_loading && self.entries@.len() == 0 ==> r is Empty,
            !self.is_loading && self.entries@.len() > 0 ==> (r matches PreviewTarget::Entry {
                entry,
                path,
            } && entry == self.entries@[self.selected as int] && path@ == join_spec(
                self.current_dir@,
                self.entries@[self.selected as int].name@,
            )),
    {
        if self.is_loading {
            PreviewTarget::Loading
        } else if self.entries.len() == 0 {
            PreviewTarget::Empty
        } else {
            let entry = self.entries[self.selected].clone();
            let path = join_path(self.current_dir.as_str(), entry.name.as_str());
            PreviewTarget::Entry { entry, path }
        }
    }

    /// Installs a regenerated preview pane.
    pub fn set_preview(&mut self, pane: PreviewPane)
        ensures
            *final(self) == (App { preview: pane, ..*old(self) }),
    {
        self.preview = pane;
    }

    /// Finds the first entry at or cyclically after `start_index` whose
    /// lowercased name holds the lowercased query.
    pub fn find_match(&self, query: &str, start_index: usize) -> (r: Option<usize>)
        requires
            self.wf(),
            self.entries@.len() > 0,
            start_index < self.entries@.len(),
        ensures
            match r {
                Some(i) => i < self.entries@.len() && match_from(
                    self.entries@,
                    lower_of(query@),
                    start_index as int,
                    self.entries@.len() as nat,
                ) == Some(i as int) && entry_matches(self.entries@[i as int], lower_of(query@)),
                None => match_from(
                    self.entries@,
                    lower_of(query@),
                    start_index as int,
                    self.entries@.len() as nat,
                ) is None && (forall|i: int|
                    0 <= i < self.entries@.len() ==> !entry_matches(
                        #[trigger] self.entries@[i],
                        lower_of(query@),
                    )),
            },
    {
        let len = self.entries.len();
        let needle = lowercase(query);
        let mut cur = start_index;
        let mut k = len;
        loop
            invariant
                self.wf(),
                0 < len == self.entries@.len(),
                0 <= cur < len,
                k <= len,
                start_index < len,
                needle@ == lower_of(query@),
                match_from(self.entries@, lower_of(query@), start_index as int, len as nat)
                    == match_from(self.entries@, lower_of(query@), cur as int, k as nat),
            decreases k,
        {
            if k == 0 {
                proof {
                    lemma_search_complete(self.entries@, lower_of(query@), start_index as int);
                }
                return None;
            }
            let lname = lowercase(self.entries[cur].name.as_str());
            if contains_str(lname.as_str(), needle.as_str()) {
                return Some(cur);
            }
            cur = if cur + 1 == len {
                0
            } else {
                cur + 1
            };
            k = k - 1;
        }
    }

    /// Finds the first entry at or cyclically before `start_index` whose
    /// lowercased name holds the lowercased query.
    pub fn find_match_reverse(&self, query: &str, start_index: usize) -> (r: Option<usize>)
        requires
            self.wf(),
            self.entries@.len() > 0,
            start_index < self.entries@.len(),
        ensures
            match r {
                Some(i) => i < self.entries@.len() && match_from_rev(
                    self.entries@,
                    lower_of(query@),
                    start_index as int,
                    self.entries@.len() as nat,
                ) == Some(i as int) && entry_matches(self.entries@[i as int], lower_of(query@)),
                None => match_from_rev(
                    self.entries@,
                    lower_of(query@),
                    start_index as int,
                    self.entries@.len() as nat,
                ) is None && (forall|i: int|
                    0 <= i < self.entries@.len() ==> !entry_matches(
                        #[trigger] self.entries@[i],
                        lower_of(query@),
                    )),
            },
    {
        let len = self.entries.len();
        let needle = lowercase(query);
        let mut cur = start_index;
        let mut k = len;
        loop
            invariant
                self.wf(),
                0 < len == self.entries@.len(),
                0 <= cur < len,
                k <= len,
                start_index < len,
                needle@ == lower_of(query@),
                match_from_rev(self.entries@, lower_of(query@), start_index as int, len as nat)
                    == match_from_rev(self.entries@, lower_of(query@), cur as int, k as nat),
            decreases k,
        {
            if k == 0 {
                proof {
                    lemma_search_rev_complete(self.entries@, lower_of(query@), start_index as int);
                }
                return None;
            }
            let lname = lowercase(self.entries[cur].name.as_str());
            if contains_str(lname.as_str(), needle.as_str()) {
                return Some(cur);
            }
            cur = if cur == 0 {
                len - 1
            } else {
                cur - 1
            };
            k = k - 1;
        }
    }

    /// Applies a committed query: records it and selects the first match at
    /// or after the current selection, cyclically.
    pub fn apply_search(&mut self, query: &str)
        requires
            old(self).wf(),
        ensures
            final(self).wf(),
            apply_search_step(*old(self), *final(self), query@),
            final(self).current_dir == old(self).current_dir,
            final(self).input_mode == old(self).input_mode,
            final(self).pending_token == old(self).pending_token,
            final(self).next_token == old(self).next_token,
            final(self).pending_fs == old(self).pending_fs,
            final(self).pending_external == old(self).pending_external,
            final(self).pending_count == old(self).pending_count,
            final(self).awaiting_g == old(self).awaiting_g,
    {
        if self.entries.len() == 0 {
            self.status = String::from_str("No entries to search");
            return ;
        }
        let start = self.selected;
        self.last_search = Some(String::from_str(query));
        match self.find_match(query, start) {
            Some(index) => {
                self.selected = index;
                let mut status = String::from_str("Match: ");
                status.append(self.entries[index].name.as_str());
                self.status = status;
            },
            None => {
                let mut status = String::from_str("No match for '");
                status.append(query);
                status.append("'");
                self.status = status;
            },
        }
    }

    /// Repeats the last query forward, starting one past the selection,
    /// wrapping cyclically.
    pub fn search_next(&mut self)
        requires
            old(self).wf(),
        ensures
            final(self).wf(),
            search_next_step(*old(self), *final(self)),
            final(self).current_dir == old(self).current_dir,
            final(self).input_mode == old(self).input_mode,
            final(self).pending_token == old(self).pending_token,
            final(self).next_token == old(self).next_token,
            final(self).pending_fs == old(self).pending_fs,
            final(self).pending_external == old(self).pending_external,
            final(self).pending_count == old(self).pending_count,
            final(self).awaiting_g == old(self).awaiting_g,
    {
        if self.entries.len() == 0 {
            self.status = String::from_str("No entries to search");
            return ;
        }
        let query = match &self.last_search {
            Some(q) => q.clone(),
            None => {
                self.status = String::from_str("No previous search");
                return ;
            },
        };
        let len = self.entries.len();
        let start = if self.selected + 1 == len {
            0
        } else {
            self.selected + 1
        };
        proof {
            vstd::arithmetic::div_mod::lemma_mod_bound(
                old(self).selected + 1,
                self.entries@.len() as int,
            );
            vstd::arithmetic::div_mod::lemma_small_mod(start as nat, self.entries@.len() as nat);
            if old(self).selected + 1 == len {
                vstd::arithmetic::div_mod::lemma_mod_self_0(len as int);
            }
        }
        match self.find_match(query.as_str(), start) {
            Some(index) => {
                self.selected = index;
                let mut status = String::from_str("Match: ");
                status.append(self.entries[index].name.as_str());
                self.status = status;
            },
            None => {
                let mut status = String::from_str("No more matches for '");
                status.append(query.as_str());
                status.append("'");
                self.status = status;
            },
        }
    }

    /// Repeats the last query backward, starting one before the selection,
    /// wrapping cyclically.
    pub fn search_prev(&mut self)
        requires
            old(self).wf(),
        ensures
            final(self).wf(),
            search_prev_step(*old(self), *final(self)),
            final(self).current_dir == old(self).current_dir,
            final(self).input_mode == old(self).input_mode,
            final(self).pending_token == old(self).pending_token,
            final(self).next_token == old(self).next_token,
            final(self).pending_fs == old(self).pending_fs,
            final(self).pending_external == old(self).pending_external,
            final(self).pending_count == old(self).pending_count,
            final(self).awaiting_g == old(self).awaiting_g,
    {
        if self.entries.len() == 0 {
            self.status = String::from_str("No entries to search");
            return ;
        }
        let query = match &self.last_search {
            Some(q) => q.clone(),
            None => {
                self.status = String::from_str("No previous search");
                return ;
            },
        };
        let len = self.entries.len();
        let start = if self.selected == 0 {
            len - 1
        } else {
            self.selected - 1
        };
        proof {
            let l = self.entries@.len() as int;
            vstd::arithmetic::div_mod::lemma_small_mod(start as nat, l as nat);
            if old(self).selected == 0 {
                assert((old(self).selected + l - 1) % l == l - 1);
            } else {
                vstd::arithmetic::div_mod::lemma_mod_add_multiples_vanish(
                    old(self).selected - 1,
                    l,
                );
                assert((old(self).selected + l - 1) % l == old(self).selected - 1);
            }
        }
        match self.find_match_reverse(query.as_str(), start) {
            Some(index) => {
                self.selected = index;
                let mut status = String::from_str("Match: ");
                status.append(self.entries[index].name.as_str());
                self.status = status;
            },
            None => {
                let mut status = String::from_str("No previous matches for '");
                status.append(query.as_str());
                status.append("'");
                self.status = status;
            },
        }
    }

    /// The detail text for the current selection.
    pub fn describe_selection(&self, now: u64) -> (r: String)
        requires
            self.wf(),
        ensures
            self.is_loading ==> r@ == "Loading directory..."@,
            !self.is_loading && self.entries@.len() == 0 ==> r@ == "No entries"@,
            !self.is_loading && self.entries@.len() > 0 ==> r@ == describe_spec(
                self.entries@[self.selected as int],
                now,
            ),
    {
        if self.is_loading {
            String::from_str("Loading directory...")
        } else if self.entries.len() == 0 {
            String::from_str("No entries")
        } else {
            self.entries[self.selected].describe(now)
        }
    }

    /// The overlay title and content for the active mode, if one is active.
    pub fn overlay_prompt(&self) -> (r: Option<(String, String)>)
        requires
            self.wf(),
        ensures
            match self.input_mode {
                InputMode::Normal => r is None,
                InputMode::Search { buffer, feedback } => (r matches Some(p) && p.0@ == "Search"@
                    && p.1@ == "/"@ + buffer@ + match feedback {
                    Some(m) => "\n"@ + m@,
                    None => Seq::<char>::empty(),
                }),
                InputMode::Command { buffer, feedback } => (r matches Some(p) && p.0@
                    == "Command"@ && p.1@ == ":"@ + buffer@ + match feedback {
                    Some(m) => "\n"@ + m@,
                    None => Seq::<char>::empty(),
                }),
                InputMode::Confirm { message, .. } => (r matches Some(p) && p.0@ == "Confirm"@
                    && p.1@ == message@ + " [y/n]"@),
            },
    {
        match &self.input_mode {
            InputMode::Normal => None,
            InputMode::Search { buffer, feedback } => {
                let mut content = String::from_str("/");
                content.append(buffer.as_str());
                match feedback {
                    Some(m) => {
                        content.append("\n");
                        content.append(m.as_str());
                    },
                    None => {},
                }
                Some((String::from_str("Search"), content))
            },
            InputMode::Command { buffer, feedback } => {
                let mut content = String::from_str(":");
                content.append(buffer.as_str());
                match feedback {
                    Some(m) => {
                        content.append("\n");
                        content.append(m.as_str());
                    },
                    None => {},
                }
                Some((String::from_str("Command"), content))
            },
            InputMode::Confirm { message, .. } => {
                let mut content = message.clone();
                content.append(" [y/n]");
                Some((String::from_str("Confirm"), content))
            },
        }
    }

    /// The footer line: status, running count and key help, joined.
    pub fn footer_text(&self) -> (r: String)
        requires
            self.wf(),
        ensures
            r@ == ({
                let status_part: Seq<char> = if self.status@.len() > 0 {
                    self.status@ + " | "@
                } else {
                    Seq::<char>::empty()
                };
                let count_part: Seq<char> = match self.pending_count {
                    Some(c) => "count "@ + dec_of(c as nat) + " | "@,
                    None => Seq::<char>::empty(),
                };
                status_part + count_part + "j/k navigate | h/l change dirs | q quit"@
            }),
    {
        let mut r = String::new();
        if self.status.as_str().unicode_len() > 0 {
            r.append(self.status.as_str());
            r.append(" | ");
        }
        match self.pending_count {
            Some(c) => {
                r.append("count ");
                let d = dec_string(c as u64);
                r.append(d.as_str());
                r.append(" | ");
            },
            None => {},
        }
        r.append("j/k navigate | h/l change dirs | q quit");
        proof {
            assert(r@ =~= ({
                let status_part: Seq<char> = if self.status@.len() > 0 {
                    self.status@ + " | "@
                } else {
                    Seq::<char>::empty()
                };
                let count_part: Seq<char> = match self.pending_count {
                    Some(c) => "count "@ + dec_of(c as nat) + " | "@,
                    None => Seq::<char>::empty(),
                };
                status_part + count_part + "j/k navigate | h/l change dirs | q quit"@
            }));
        }
        r
    }
}

} // verus!
