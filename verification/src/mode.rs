//! The modal controller: the total transition table from key input in each
//! mode to the next mode, routing committed buffers to the search engine or
//! the command interpreter, and confirmation to the deferred action.

use vstd::prelude::*;
use vstd::string::StrSliceExecFns;
use vstd::string::StringExecFns;
use crate::state::{App, InputMode, Key, Outcome, apply_search_step, search_next_step,
    search_prev_step};
use crate::command::{run_command_step, confirm_delete_step};
use crate::text::{is_control_char, control_char, trim_spec, trim_str, push_char, pop_char, dec_of};

verus! {

/// How one key steps the engine in normal mode.
pub open spec fn normal_step(pre: App, post: App, key: Key, r: Outcome) -> bool {
    match key {
        Key::Char(c) => {
            if c == 'q' {
                r is Quit && post == pre
            } else if c == 'j' {
                move_count_step(pre, post, 1) && r is Done
            } else if c == 'k' {
                move_count_step(pre, post, -1) && r is Done
            } else if c == 'g' {
                r is Done && (if pre.awaiting_g {
                    let target = (match pre.pending_count {
                        Some(n) => n as int,
                        None => 1,
                    }) - 1;
                    &&& !post.awaiting_g
                    &&& post.pending_count is None
                    &&& jump_effect(pre, post, target)
                    &&& post.status == pre.status
                } else {
                    &&& post.awaiting_g
                    &&& post.status@ == "Press g again to jump to entry"@
                    &&& post.pending_count == pre.pending_count
                    &&& post.selected == pre.selected
                    &&& post.entries == pre.entries
                })
            } else if c == 'G' {
                &&& r is Done
                &&& !post.awaiting_g
                &&& post.pending_count is None
                &&& post.status == pre.status
                &&& match pre.pending_count {
                    Some(n) => jump_effect(pre, post, n - 1),
                    None => {
                        &&& (pre.entries@.len() == 0 ==> post.selected == pre.selected)
                        &&& (pre.entries@.len() > 0 ==> post.selected == pre.entries@.len() - 1)
                        &&& post.entries == pre.entries
                    },
                }
            } else if c == 'r' {
                &&& (r matches Outcome::Scan(s) && s.path@ == pre.current_dir@ && s.token
                    == pre.next_token)
                &&& post.pending_token == Some(pre.next_token)
                &&& post.status@ == "Loading "@ + pre.current_dir@ + " ..."@
                &&& post.current_dir == pre.current_dir
                &&& post.entries == pre.entries
                &&& post.pending_count is None
                &&& !post.awaiting_g
            } else if c == 'h' {
                parent_outcome_step(pre, post, r)
            } else if c == 'l' {
                enter_outcome_step(pre, post, r)
            } else if c == 'n' {
                r is Done && search_next_step(pre, post) && post.pending_count is None
                    && !post.awaiting_g
            } else if c == 'N' {
                r is Done && search_prev_step(pre, post) && post.pending_count is None
                    && !post.awaiting_g
            } else if c == '/' {
                &&& r is Done
                &&& (post.input_mode matches InputMode::Search { buffer, feedback } && feedback
                    is None && buffer@ == (match pre.last_search {
                    Some(q) => q@,
                    None => Seq::<char>::empty(),
                }))
                &&& post.pending_count is None
                &&& post.entries == pre.entries
                &&& !post.awaiting_g
            } else if c == ':' {
                &&& r is Done
                &&& (post.input_mode matches InputMode::Command { buffer, feedback } && feedback
                    is None && buffer@ == Seq::<char>::empty())
                &&& post.pending_count is None
                &&& post.entries == pre.entries
                &&& !post.awaiting_g
            } else if 48 <= c as u32 <= 57 {
                &&& r is Done
                &&& post.awaiting_g == pre.awaiting_g
                &&& post.entries == pre.entries
                &&& post.selected == pre.selected
                &&& ({
                    let d = (c as u32 - 48) as int;
                    let cur = match pre.pending_count {
                        Some(n) => n as int,
                        None => 0,
                    };
                    let next = if cur * 10 + d > 9999 {
                        9999int
                    } else {
                        cur * 10 + d
                    };
                    post.pending_count == Some(next as usize) && post.status@ == "Count: "@
                        + dec_of(next as nat)
                })
            } else {
                r is Done && idle_step(pre, post)
            }
        },
        Key::Down => move_count_step(pre, post, 1) && r is Done,
        Key::Up => move_count_step(pre, post, -1) && r is Done,
        Key::Left => parent_outcome_step(pre, post, r),
        Key::Right => enter_outcome_step(pre, post, r),
        Key::Enter => enter_outcome_step(pre, post, r),
        _ => r is Done && idle_step(pre, post),
    }
}

/// Movement by the consumed count, as `j`/`k` and the arrows do it.
pub open spec fn move_count_step(pre: App, post: App, delta: int) -> bool {
    let count = match pre.pending_count {
        Some(c) => c as int,
        None => 1,
    };
    let scaled = App::sat_mul_spec(delta, count);
    &&& post.pending_count is None
    &&& !post.awaiting_g
    &&& (pre.entries@.len() == 0 ==> post.selected == 0)
    &&& (pre.entries@.len() > 0 ==> post.selected == App::wrapped_index(
        pre.selected as int,
        scaled,
        pre.entries@.len() as int,
    ))
    &&& post.entries == pre.entries
    &&& post.status == pre.status
}

/// A jump to a (clamped) target index.
pub open spec fn jump_effect(pre: App, post: App, target: int) -> bool {
    &&& (pre.entries@.len() == 0 ==> post.selected == 0)
    &&& (pre.entries@.len() > 0 ==> post.selected == (if 0 <= target < pre.entries@.len() {
        target
    } else if target < 0 {
        0int
    } else {
        pre.entries@.len() - 1
    }))
    &&& post.entries == pre.entries
}

/// Parent navigation with the count cleared, as `h` and Left do it.
pub open spec fn parent_outcome_step(pre: App, post: App, r: Outcome) -> bool {
    &&& match crate::text::parent_spec(pre.current_dir@) {
        Some(p) => {
            &&& (r matches Outcome::Scan(s) && s.path@ == p && s.token == pre.next_token)
            &&& post.current_dir@ == p
            &&& post.entries@.len() == 0
            &&& post.last_search is None
        },
        None => r is Done && post.current_dir == pre.current_dir && post.entries == pre.entries,
    }
    &&& post.pending_count is None
    &&& !post.awaiting_g
}

/// Opening the selection with the count cleared, as `l`, Right and Enter do
/// it.
pub open spec fn enter_outcome_step(pre: App, post: App, r: Outcome) -> bool {
    &&& (pre.entries@.len() == 0 ==> r is Done && post.entries == pre.entries && post.selected
        == pre.selected && post.current_dir == pre.current_dir && post.last_search
        == pre.last_search && post.status == pre.status)
    &&& (pre.entries@.len() > 0 ==> ({
        let e = pre.entries@[pre.selected as int];
        if e.is_dir {
            &&& (r matches Outcome::Scan(s) && s.path@ == crate::text::join_spec(
                pre.current_dir@,
                e.name@,
            ) && s.token == pre.next_token)
            &&& post.current_dir@ == crate::text::join_spec(pre.current_dir@, e.name@)
            &&& post.entries@.len() == 0
            &&& post.last_search is None
        } else {
            &&& r is Done
            &&& post.current_dir == pre.current_dir
            &&& post.entries == pre.entries
            &&& post.selected == pre.selected
            &&& post.last_search == pre.last_search
            &&& post.status@ == "'"@ + e.name@ + "' is not a directory"@
        }
    }))
    &&& post.pending_count is None
    &&& !post.awaiting_g
}

/// The fall-through arm of normal mode: the prefix state is dropped, nothing
/// else changes.
pub open spec fn idle_step(pre: App, post: App) -> bool {
    &&& !post.awaiting_g
    &&& post.pending_count is None
    &&& post.entries == pre.entries
    &&& post.selected == pre.selected
    &&& post.status == pre.status
    &&& post.input_mode == pre.input_mode
    &&& post.current_dir == pre.current_dir
}

/// How one key steps the engine in search mode.
pub open spec fn search_mode_step(pre: App, post: App, key: Key, r: Outcome) -> bool {
    let buffer = match pre.input_mode {
        InputMode::Search { buffer, .. } => buffer@,
        _ => Seq::<char>::empty(),
    };
    &&& r is Done
    &&& match key {
        Key::Esc => {
            &&& post.input_mode is Normal
            &&& post.pending_count is None
            &&& post.status@ == "Search canceled"@
            &&& post.entries == pre.entries
            &&& post.selected == pre.selected
            &&& post.last_search == pre.last_search
        },
        Key::Enter => {
            if buffer.len() == 0 {
                &&& (post.input_mode matches InputMode::Search { buffer: b, feedback } && b@
                    == buffer && (feedback matches Some(m) && m@ == "Enter a search query"@))
                &&& post.entries == pre.entries
                &&& post.selected == pre.selected
                &&& post.status == pre.status
            } else {
                &&& post.input_mode is Normal
                &&& apply_search_step(
                    (App { input_mode: InputMode::Normal, pending_count: None, ..pre }),
                    post,
                    buffer,
                )
            }
        },
        Key::Backspace => {
            &&& (post.input_mode matches InputMode::Search { buffer: b, feedback } && feedback
                is None && b@ == (if buffer.len() > 0 {
                buffer.drop_last()
            } else {
                buffer
            }))
            &&& post.entries == pre.entries
            &&& post.selected == pre.selected
            &&& post.status == pre.status
        },
        Key::Char(c) => {
            if !is_control_char(c) {
                &&& (post.input_mode matches InputMode::Search { buffer: b, feedback }
                    && feedback is None && b@ == buffer.push(c))
                &&& post.entries == pre.entries
                &&& post.selected == pre.selected
                &&& post.status == pre.status
            } else {
                post == pre
            }
        },
        _ => post == pre,
    }
}

/// How one key steps the engine in command mode.
pub open spec fn command_mode_step(pre: App, post: App, key: Key, r: Outcome) -> bool {
    let buffer = match pre.input_mode {
        InputMode::Command { buffer, .. } => buffer@,
        _ => Seq::<char>::empty(),
    };
    match key {
        Key::Esc => {
            &&& r is Done
            &&& post.input_mode is Normal
            &&& post.pending_count is None
            &&& post.status@ == "Command canceled"@
            &&& post.entries == pre.entries
            &&& post.selected == pre.selected
        },
        Key::Enter => {
            if trim_spec(buffer).len() == 0 {
                &&& r is Done
                &&& (post.input_mode matches InputMode::Command { buffer: b, feedback } && b@
                    == buffer && (feedback matches Some(m) && m@ == "Enter a command"@))
                &&& post.entries == pre.entries
                &&& post.status == pre.status
            } else {
                run_command_step(
                    (App { input_mode: InputMode::Normal, pending_count: None, ..pre }),
                    post,
                    buffer,
                    r,
                )
            }
        },
        Key::Backspace => {
            &&& r is Done
            &&& (post.input_mode matches InputMode::Command { buffer: b, feedback } && feedback
                is None && b@ == (if buffer.len() > 0 {
                buffer.drop_last()
            } else {
                buffer
            }))
            &&& post.entries == pre.entries
            &&& post.status == pre.status
        },
        Key::Char(c) => {
            if !is_control_char(c) {
                &&& r is Done
                &&& (post.input_mode matches InputMode::Command { buffer: b, feedback }
                    && feedback is None && b@ == buffer.push(c))
                &&& post.entries == pre.entries
                &&& post.status == pre.status
            } else {
                r is Done && post == pre
            }
        },
        _ => r is Done && post == pre,
    }
}

/// How one key steps the engine in confirm mode: `y`/Enter run the carried
/// action, `n`/Esc discard it, anything else does nothing.
pub open spec fn confirm_mode_step(pre: App, post: App, key: Key, r: Outcome) -> bool {
    let yes = (key matches Key::Enter) || (key matches Key::Char(c) && (c == 'y' || c == 'Y'));
    let no = (key matches Key::Esc) || (key matches Key::Char(c) && (c == 'n' || c == 'N'));
    if no {
        &&& r is Done
        &&& post.input_mode is Normal
        &&& post.pending_count is None
        &&& post.status@ == "Action canceled"@
        &&& post.entries == pre.entries
        &&& post.selected == pre.selected
    } else if yes {
        match pre.input_mode {
            InputMode::Confirm { action, .. } => {
                &&& post.input_mode is Normal
                &&& post.pending_count is None
                &&& confirm_delete_step(
                    (App { input_mode: InputMode::Normal, ..pre }),
                    post,
                    action,
                    r,
                )
            },
            _ => true,
        }
    } else {
        r is Done && post == pre
    }
}

impl App {
    /// Handles one key in normal mode.
    pub fn handle_normal_mode(&mut self, key: Key) -> (r: Outcome)
        requires
            old(self).wf(),
            old(self).input_mode is Normal,
            old(self).next_token < u64::MAX,
        ensures
            final(self).wf(),
            normal_step(*old(self), *final(self), key, r),
    {
        match key {
            Key::Char('q') => Outcome::Quit,
            Key::Char('j') | Key::Down => {
                self.awaiting_g = false;
                self.move_selection_by_count(1);
                Outcome::Done
            },
            Key::Char('k') | Key::Up => {
                self.awaiting_g = false;
                self.move_selection_by_count(-1);
                Outcome::Done
            },
            Key::Char('g') => {
                if self.awaiting_g {
                    self.awaiting_g = false;
                    let count = match self.take_count() {
                        Some(n) => n,
                        None => 1,
                    };
                    let target = if count > 0 {
                        count - 1
                    } else {
                        0
                    };
                    self.jump_to_index(target);
                } else {
                    self.awaiting_g = true;
                    self.status = String::from_str("Press g again to jump to entry");
                }
                Outcome::Done
            },
            Key::Char('G') => {
                self.awaiting_g = false;
                match self.take_count() {
                    Some(count) => {
                        let target = if count > 0 {
                            count - 1
                        } else {
                            0
                        };
                        self.jump_to_index(target);
                    },
                    None => {
                        self.jump_to_end();
                    },
                }
                Outcome::Done
            },
            Key::Char('r') => {
                self.awaiting_g = false;
                let scan = self.refresh_async(false);
                self.clear_pending_count();
                Outcome::Scan(scan)
            },
            Key::Char('h') | Key::Left => {
                self.awaiting_g = false;
                let scan = self.open_parent();
                self.clear_pending_count();
                match scan {
                    Some(s) => Outcome::Scan(s),
                    None => Outcome::Done,
                }
            },
            Key::Char('l') | Key::Right | Key::Enter => {
                self.awaiting_g = false;
                let scan = self.enter_selection();
                self.clear_pending_count();
                match scan {
                    Some(s) => Outcome::Scan(s),
                    None => Outcome::Done,
                }
            },
            Key::Char('n') => {
                self.awaiting_g = false;
                self.search_next();
                self.clear_pending_count();
                Outcome::Done
            },
            Key::Char('N') => {
                self.awaiting_g = false;
                self.search_prev();
                self.clear_pending_count();
                Outcome::Done
            },
            Key::Char('/') => {
                self.awaiting_g = false;
                self.start_search();
                Outcome::Done
            },
            Key::Char(':') => {
                self.awaiting_g = false;
                self.start_command();
                Outcome::Done
            },
            Key::Char(c) => {
                let u = c as u32;
                if 48 <= u && u <= 57 {
                    self.accumulate_count(c);
                } else {
                    self.awaiting_g = false;
                    self.clear_pending_count();
                }
                Outcome::Done
            },
            _ => {
                self.awaiting_g = false;
                self.clear_pending_count();
                Outcome::Done
            },
        }
    }

    /// Handles one key in search mode.
    pub fn handle_search_mode(&mut self, key: Key) -> (r: Outcome)
        requires
            old(self).wf(),
            old(self).input_mode is Search,
        ensures
            final(self).wf(),
            search_mode_step(*old(self), *final(self), key, r),
    {
        match key {
            Key::Esc => {
                self.cancel_overlay();
                self.status = String::from_str("Search canceled");
                Outcome::Done
            },
            Key::Enter => {
                let buffer = match &self.input_mode {
                    InputMode::Search { buffer, .. } => buffer.clone(),
                    _ => String::new(),
                };
                if buffer.as_str().unicode_len() == 0 {
                    self.set_overlay_feedback(String::from_str("Enter a search query"));
                } else {
                    self.cancel_overlay();
                    self.apply_search(buffer.as_str());
                }
                Outcome::Done
            },
            Key::Backspace => {
                let mut mode = InputMode::Normal;
                core::mem::swap(&mut self.input_mode, &mut mode);
                match mode {
                    InputMode::Search { buffer, .. } => {
                        self.input_mode = InputMode::Search {
                            buffer: pop_char(buffer.as_str()),
                            feedback: None,
                        };
                    },
                    other => {
                        self.input_mode = other;
                    },
                }
                Outcome::Done
            },
            Key::Char(c) => {
                if !control_char(c) {
                    let mut mode = InputMode::Normal;
                    core::mem::swap(&mut self.input_mode, &mut mode);
                    match mode {
                        InputMode::Search { mut buffer, .. } => {
                            push_char(&mut buffer, c);
                            self.input_mode = InputMode::Search { buffer, feedback: None };
                        },
                        other => {
                            self.input_mode = other;
                        },
                    }
                }
                Outcome::Done
            },
            _ => Outcome::Done,
        }
    }

    /// Handles one key in command mode.
    pub fn handle_command_mode(&mut self, key: Key) -> (r: Outcome)
        requires
            old(self).wf(),
            old(self).input_mode is Command,
            old(self).next_token < u64::MAX,
        ensures
            final(self).wf(),
            command_mode_step(*old(self), *final(self), key, r),
    {
        match key {
            Key::Esc => {
                self.cancel_overlay();
                self.status = String::from_str("Command canceled");
                Outcome::Done
            },
            Key::Enter => {
                let buffer = match &self.input_mode {
                    InputMode::Command { buffer, .. } => buffer.clone(),
                    _ => String::new(),
                };
                if trim_str(buffer.as_str()).unicode_len() == 0 {
                    self.set_overlay_feedback(String::from_str("Enter a command"));
                    Outcome::Done
                } else {
                    self.cancel_overlay();
                    self.run_command(buffer.as_str())
                }
            },
            Key::Backspace => {
                let mut mode = InputMode::Normal;
                core::mem::swap(&mut self.input_mode, &mut mode);
                match mode {
                    InputMode::Command { buffer, .. } => {
                        self.input_mode = InputMode::Command {
                            buffer: pop_char(buffer.as_str()),
                            feedback: None,
                        };
                    },
                    other => {
                        self.input_mode = other;
                    },
                }
                Outcome::Done
            },
            Key::Char(c) => {
                if !control_char(c) {
                    let mut mode = InputMode::Normal;
                    core::mem::swap(&mut self.input_mode, &mut mode);
                    match mode {
                        InputMode::Command { mut buffer, .. } => {
                            push_char(&mut buffer, c);
                            self.input_mode = InputMode::Command { buffer, feedback: None };
                        },
                        other => {
                            self.input_mode = other;
                        },
                    }
                }
                Outcome::Done
            },
            _ => Outcome::Done,
        }
    }

    /// Handles one key in confirm mode.
    pub fn handle_confirm_mode(&mut self, key: Key) -> (r: Outcome)
        requires
            old(self).wf(),
            old(self).input_mode is Confirm,
        ensures
            final(self).wf(),
            confirm_mode_step(*old(self), *final(self), key, r),
    {
        match key {
            Key::Esc | Key::Char('n') | Key::Char('N') => {
                self.cancel_overlay();
                self.status = String::from_str("Action canceled");
                Outcome::Done
            },
            Key::Enter | Key::Char('y') | Key::Char('Y') => {
                let mut mode = InputMode::Normal;
                core::mem::swap(&mut self.input_mode, &mut mode);
                let r = match mode {
                    InputMode::Confirm { action, .. } => self.execute_confirm_action(action),
                    other => {
                        self.input_mode = other;
                        Outcome::Done
                    },
                };
                self.clear_pending_count();
                r
            },
            _ => Outcome::Done,
        }
    }

    /// Routes one key to the active mode's handler: the transition table is
    /// total.
    pub fn handle_key_event(&mut self, key: Key) -> (r: Outcome)
        requires
            old(self).wf(),
            old(self).next_token < u64::MAX,
        ensures
            final(self).wf(),
            match old(self).input_mode {
                InputMode::Normal => normal_step(*old(self), *final(self), key, r),
                InputMode::Search { .. } => search_mode_step(*old(self), *final(self), key, r),
                InputMode::Command { .. } => command_mode_step(*old(self), *final(self), key, r),
                InputMode::Confirm { .. } => confirm_mode_step(*old(self), *final(self), key, r),
            },
    {
        match &self.input_mode {
            InputMode::Normal => self.handle_normal_mode(key),
            InputMode::Search { .. } => self.handle_search_mode(key),
            InputMode::Command { .. } => self.handle_command_mode(key),
            InputMode::Confirm { .. } => self.handle_confirm_mode(key),
        }
    }
}

} // verus!
