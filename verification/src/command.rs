//! The command interpreter: alias resolution, name and destination
//! validation, and the conflict policy. Every check runs before any
//! filesystem mutation is asked for; the interpreter only ever hands a
//! validated action to its caller.

use vstd::prelude::*;
use vstd::string::StrSliceExecFns;
use vstd::string::StringExecFns;
use crate::state::{App, AliasPair, ConfirmAction, ExternalCommand, FsAction, InputMode, Outcome,
    PendingFs};
use crate::entry::FileEntry;
use crate::text::{lower_of, lowercase, trim_spec, trim_str, split_cmd_spec, split_args_spec,
    split_command, str_eq, is_abs_path, abs_path, join_spec, join_path, ends_with_sep,
    has_dir_hint};

verus! {

/// The command that an alias stands for: the first matching row of the
/// table, or the key itself.
pub open spec fn alias_lookup_from(table: Seq<AliasPair>, key: Seq<char>, i: int) -> Seq<char>
    decreases table.len() - i,
{
    if i < 0 || i >= table.len() {
        key
    } else if table[i].alias@ == key {
        table[i].command@
    } else {
        alias_lookup_from(table, key, i + 1)
    }
}

pub open spec fn alias_lookup(table: Seq<AliasPair>, key: Seq<char>) -> Seq<char> {
    alias_lookup_from(table, key, 0)
}

/// A path separator, forbidden inside a new name.
pub open spec fn is_sep_char(c: char) -> bool {
    c == '/' || c == '\\'
}

pub open spec fn has_separator(t: Seq<char>) -> bool {
    exists|i: int| 0 <= i < t.len() && is_sep_char(#[trigger] t[i])
}

/// The name validation shared by rename, mkdir and touch: trimmed, non-empty,
/// changed, not a dot name, and free of separators.
pub open spec fn validate_name_spec(input: Seq<char>, current: Seq<char>) -> Result<
    Seq<char>,
    Seq<char>,
> {
    let t = trim_spec(input);
    if t.len() == 0 {
        Err("Name cannot be empty"@)
    } else if current.len() > 0 && t == current {
        Err("Name is unchanged"@)
    } else if t == "."@ || t == ".."@ {
        Err("Invalid name '"@ + t + "'"@)
    } else if has_separator(t) {
        Err("Name cannot contain path separators"@)
    } else {
        Ok(t)
    }
}

/// Validates a new file or directory name against the current one.
pub fn validate_new_name(input: &str, current: &str) -> (r: Result<String, String>)
    ensures
        match r {
            Ok(name) => validate_name_spec(input@, current@) == Ok::<Seq<char>, Seq<char>>(name@),
            Err(msg) => validate_name_spec(input@, current@) == Err::<Seq<char>, Seq<char>>(msg@),
        },
{
    let trimmed = trim_str(input);
    let n = trimmed.unicode_len();
    if n == 0 {
        return Err(String::from_str("Name cannot be empty"));
    }
    if current.unicode_len() > 0 && str_eq(trimmed, current) {
        return Err(String::from_str("Name is unchanged"));
    }
    if str_eq(trimmed, ".") || str_eq(trimmed, "..") {
        let mut msg = String::from_str("Invalid name '");
        msg.append(trimmed);
        msg.append("'");
        return Err(msg);
    }
    let mut i: usize = 0;
    while i < n
        invariant
            0 <= i <= n,
            0 < n == trimmed@.len(),
            trimmed@ == trim_spec(input@),
            !(current@.len() > 0 && trimmed@ == current@),
            trimmed@ != "."@,
            trimmed@ != ".."@,
            forall|j: int| 0 <= j < i ==> !is_sep_char(#[trigger] trimmed@[j]),
        decreases n - i,
    {
        let c = trimmed.get_char(i);
        if c == '/' || c == '\\' {
            proof {
                assert(is_sep_char(trimmed@[i as int]));
                assert(has_separator(trim_spec(input@)));
            }
            return Err(String::from_str("Name cannot contain path separators"));
        }
        i = i + 1;
    }
    proof {
        assert(!has_separator(trimmed@));
    }
    Ok(String::from_str(trimmed))
}

impl App {
    /// Resolves a command word through the alias table, lowercased first.
    pub fn resolve_command_alias(&self, cmd: &str) -> (r: String)
        ensures
            r@ == alias_lookup(self.command_aliases@, lower_of(cmd@)),
    {
        let key = lowercase(cmd);
        let n = self.command_aliases.len();
        let mut i: usize = 0;
        loop
            invariant
                0 <= i <= n,
                n == self.command_aliases@.len(),
                key@ == lower_of(cmd@),
                alias_lookup(self.command_aliases@, key@) == alias_lookup_from(
                    self.command_aliases@,
                    key@,
                    i as int,
                ),
            decreases n - i,
        {
            if i == n {
                return key;
            }
            if str_eq(self.command_aliases[i].alias.as_str(), key.as_str()) {
                return self.command_aliases[i].command.clone();
            }
            i = i + 1;
        }
    }
}

/// How a rename request steps the engine: validation first, then an
/// existence check on the destination.
pub open spec fn rename_step(pre: App, post: App, args: Seq<char>, r: Outcome) -> bool {
    if pre.entries@.len() == 0 {
        &&& r is Done
        &&& post.status@ == "Rename failed: No selection to rename"@
        &&& post.pending_fs is None
    } else {
        let e = pre.entries@[pre.selected as int];
        match validate_name_spec(args, e.name@) {
            Err(msg) => {
                &&& r is Done
                &&& post.status@ == "Rename failed: "@ + msg
                &&& post.pending_fs is None
            },
            Ok(new_name) => {
                let src = join_spec(pre.current_dir@, e.name@);
                let dest = join_spec(pre.current_dir@, new_name);
                &&& (r matches Outcome::CheckExists { path } && path@ == dest)
                &&& (post.pending_fs matches Some(PendingFs::RenameExists {
                    src: s,
                    dest: d,
                    old_name: o,
                    new_name: nn,
                }) && s@ == src && d@ == dest && o@ == e.name@ && nn@ == new_name)
                &&& post.status == pre.status
            },
        }
    }
}

/// How a mkdir or touch request steps the engine; `kind_prefix` is the
/// command's error prefix.
pub open spec fn create_step(
    pre: App,
    post: App,
    args: Seq<char>,
    r: Outcome,
    prefix: Seq<char>,
    dir_kind: bool,
) -> bool {
    match validate_name_spec(args, Seq::<char>::empty()) {
        Err(msg) => {
            &&& r is Done
            &&& post.status@ == prefix + msg
            &&& post.pending_fs is None
        },
        Ok(name) => {
            let dest = join_spec(pre.current_dir@, name);
            &&& (r matches Outcome::CheckExists { path } && path@ == dest)
            &&& (if dir_kind {
                post.pending_fs matches Some(PendingFs::MkdirExists { dest: d, name: n }) && d@
                    == dest && n@ == name
            } else {
                post.pending_fs matches Some(PendingFs::TouchExists { dest: d, name: n }) && d@
                    == dest && n@ == name
            })
            &&& post.status == pre.status
        },
    }
}

/// How a copy or move request steps the engine: resolve the target, then ask
/// whether it is a directory (unless the text itself says so), then check the
/// destination for a collision.
pub open spec fn transfer_step(
    pre: App,
    post: App,
    args: Seq<char>,
    r: Outcome,
    prefix: Seq<char>,
    is_move: bool,
) -> bool {
    if pre.entries@.len() == 0 {
        &&& r is Done
        &&& post.status@ == prefix + "No selection to "@ + (if is_move {
            "move"@
        } else {
            "copy"@
        })
        &&& post.pending_fs is None
    } else {
        let e = pre.entries@[pre.selected as int];
        let t = trim_spec(args);
        if t.len() == 0 {
            &&& r is Done
            &&& post.status@ == prefix + "Destination path required"@
            &&& post.pending_fs is None
        } else {
            let src = join_spec(pre.current_dir@, e.name@);
            let base = if is_abs_path(t) {
                t
            } else {
                join_spec(pre.current_dir@, t)
            };
            if ends_with_sep(t) {
                let dest = join_spec(base, e.name@);
                &&& (r matches Outcome::CheckExists { path } && path@ == dest)
                &&& (if is_move {
                    post.pending_fs matches Some(PendingFs::MoveExists {
                        src: s,
                        name: n,
                        is_dir,
                        dest: d,
                    }) && s@ == src && n@ == e.name@ && is_dir == e.is_dir && d@ == dest
                } else {
                    post.pending_fs matches Some(PendingFs::CopyExists {
                        src: s,
                        name: n,
                        is_dir,
                        dest: d,
                    }) && s@ == src && n@ == e.name@ && is_dir == e.is_dir && d@ == dest
                })
            } else {
                &&& (r matches Outcome::CheckIsDir { path } && path@ == base)
                &&& (if is_move {
                    post.pending_fs matches Some(PendingFs::MoveIsDir {
                        src: s,
                        name: n,
                        is_dir,
                        dest0: d,
                    }) && s@ == src && n@ == e.name@ && is_dir == e.is_dir && d@ == base
                } else {
                    post.pending_fs matches Some(PendingFs::CopyIsDir {
                        src: s,
                        name: n,
                        is_dir,
                        dest0: d,
                    }) && s@ == src && n@ == e.name@ && is_dir == e.is_dir && d@ == base
                })
            }
        }
    }
}

/// How a cd request steps the engine: resolve the (possibly relative) target
/// through the caller's canonicalization.
pub open spec fn cd_step(pre: App, post: App, args: Seq<char>, r: Outcome) -> bool {
    let t = trim_spec(args);
    if t.len() == 0 {
        &&& r is Done
        &&& post.status@ == "cd failed: Usage: :cd <path>"@
        &&& post.pending_fs is None
    } else {
        let base = if is_abs_path(t) {
            t
        } else {
            join_spec(pre.current_dir@, t)
        };
        &&& (r matches Outcome::Resolve { path } && path@ == base)
        &&& post.pending_fs == Some(PendingFs::CdResolve)
        &&& post.status == pre.status
    }
}

/// How a delete request steps the engine: into confirm mode, carrying the
/// entry and its resolved path; nothing is touched yet.
pub open spec fn delete_step(pre: App, post: App, r: Outcome) -> bool {
    if pre.entries@.len() == 0 {
        &&& r is Done
        &&& post.status@ == "Delete failed: No selection to delete"@
        &&& post.input_mode == pre.input_mode
    } else {
        let e = pre.entries@[pre.selected as int];
        &&& r is Done
        &&& (post.input_mode matches InputMode::Confirm { message, action } && message@
            == "Delete '"@ + e.name@ + "'?"@ && (action matches ConfirmAction::Delete {
            entry,
            path,
        } && entry == e && path@ == join_spec(pre.current_dir@, e.name@)))
        &&& post.status@ == "Confirm delete with y/n"@
    }
}

/// How an edit request steps the engine: a boundary request for the process
/// collaborator, never a filesystem action.
pub open spec fn edit_step(pre: App, post: App, r: Outcome) -> bool {
    if pre.entries@.len() == 0 {
        &&& r is Done
        &&& post.status@ == "edit failed: No selection to edit"@
        &&& post.pending_external == pre.pending_external
    } else {
        let e = pre.entries@[pre.selected as int];
        if e.is_dir {
            &&& r is Done
            &&& post.status@ == "edit failed: Cannot edit a directory"@
            &&& post.pending_external == pre.pending_external
        } else {
            &&& r is Done
            &&& (post.pending_external matches Some(ExternalCommand::Edit { path, name }) && path@
                == join_spec(pre.current_dir@, e.name@) && name@ == e.name@)
            &&& post.status@ == "Launching editor for "@ + e.name@
        }
    }
}

/// How a shell request steps the engine.
pub open spec fn shell_step(pre: App, post: App, r: Outcome) -> bool {
    &&& r is Done
    &&& (post.pending_external matches Some(ExternalCommand::Shell { dir }) && dir@
        == pre.current_dir@)
    &&& post.status@ == "Launching shell in "@ + pre.current_dir@
}

impl App {
    fn command_rename(&mut self, args: &str) -> (r: Outcome)
        requires
            old(self).wf(),
        ensures
            final(self).wf(),
            rename_step(*old(self), *final(self), args@, r),
            final(self).entries == old(self).entries,
            final(self).selected == old(self).selected,
            final(self).current_dir == old(self).current_dir,
            final(self).input_mode == old(self).input_mode,
            final(self).next_token == old(self).next_token,
            final(self).pending_token == old(self).pending_token,
            final(self).last_search == old(self).last_search,
            final(self).pending_external == old(self).pending_external,
    {
        if self.entries.len() == 0 {
            self.status = String::from_str("Rename failed: No selection to rename");
            self.pending_fs = None;
            return Outcome::Done;
        }
        let entry = self.entries[self.selected].clone();
        match validate_new_name(args, entry.name.as_str()) {
            Err(msg) => {
                let mut status = String::from_str("Rename failed: ");
                status.append(msg.as_str());
                self.status = status;
                self.pending_fs = None;
                Outcome::Done
            },
            Ok(new_name) => {
                let src = join_path(self.current_dir.as_str(), entry.name.as_str());
                let dest = join_path(self.current_dir.as_str(), new_name.as_str());
                self.pending_fs = Some(
                    PendingFs::RenameExists {
                        src,
                        dest: dest.clone(),
                        old_name: entry.name.clone(),
                        new_name,
                    },
                );
                Outcome::CheckExists { path: dest }
            },
        }
    }

    fn command_create(&mut self, args: &str, dir_kind: bool) -> (r: Outcome)
        requires
            old(self).wf(),
        ensures
            final(self).wf(),
            create_step(
                *old(self),
                *final(self),
                args@,
                r,
                if dir_kind {
                    "mkdir failed: "@
                } else {
                    "touch failed: "@
                },
                dir_kind,
            ),
            final(self).entries == old(self).entries,
            final(self).selected == old(self).selected,
            final(self).current_dir == old(self).current_dir,
            final(self).input_mode == old(self).input_mode,
            final(self).next_token == old(self).next_token,
            final(self).pending_token == old(self).pending_token,
            final(self).last_search == old(self).last_search,
            final(self).pending_external == old(self).pending_external,
    {
        proof {
            reveal_strlit("");
            assert(""@ =~= Seq::<char>::empty());
        }
        match validate_new_name(args, "") {
            Err(msg) => {
                let mut status = if dir_kind {
                    String::from_str("mkdir failed: ")
                } else {
                    String::from_str("touch failed: ")
                };
                status.append(msg.as_str());
                self.status = status;
                self.pending_fs = None;
                Outcome::Done
            },
            Ok(name) => {
                let dest = join_path(self.current_dir.as_str(), name.as_str());
                if dir_kind {
                    self.pending_fs = Some(PendingFs::MkdirExists { dest: dest.clone(), name });
                } else {
                    self.pending_fs = Some(PendingFs::TouchExists { dest: dest.clone(), name });
                }
                Outcome::CheckExists { path: dest }
            },
        }
    }

    fn command_transfer(&mut self, args: &str, is_move: bool) -> (r: Outcome)
        requires
            old(self).wf(),
        ensures
            final(self).wf(),
            transfer_step(
                *old(self),
                *final(self),
                args@,
                r,
                if is_move {
                    "move failed: "@
                } else {
                    "copy failed: "@
                },
                is_move,
            ),
            final(self).entries == old(self).entries,
            final(self).selected == old(self).selected,
            final(self).current_dir == old(self).current_dir,
            final(self).input_mode == old(self).input_mode,
            final(self).next_token == old(self).next_token,
            final(self).pending_token == old(self).pending_token,
            final(self).last_search == old(self).last_search,
            final(self).pending_external == old(self).pending_external,
    {
        if self.entries.len() == 0 {
            let mut status = if is_move {
                String::from_str("move failed: No selection to move")
            } else {
                String::from_str("copy failed: No selection to copy")
            };
            proof {
                reveal_strlit("move failed: No selection to move");
                reveal_strlit("copy failed: No selection to copy");
                reveal_strlit("move failed: ");
                reveal_strlit("copy failed: ");
                reveal_strlit("No selection to ");
                reveal_strlit("move");
                reveal_strlit("copy");
                if is_move {
                    assert(status@ =~= "move failed: "@ + "No selection to "@ + "move"@);
                } else {
                    assert(status@ =~= "copy failed: "@ + "No selection to "@ + "copy"@);
                }
            }
            self.status = status;
            self.pending_fs = None;
            return Outcome::Done;
        }
        let entry = self.entries[self.selected].clone();
        let trimmed = trim_str(args);
        if trimmed.unicode_len() == 0 {
            let mut status = if is_move {
                String::from_str("move failed: ")
            } else {
                String::from_str("copy failed: ")
            };
            status.append("Destination path required");
            self.status = status;
            self.pending_fs = None;
            return Outcome::Done;
        }
        let src = join_path(self.current_dir.as_str(), entry.name.as_str());
        let base = if abs_path(trimmed) {
            String::from_str(trimmed)
        } else {
            join_path(self.current_dir.as_str(), trimmed)
        };
        if has_dir_hint(trimmed) {
            let dest = join_path(base.as_str(), entry.name.as_str());
            if is_move {
                self.pending_fs = Some(
                    PendingFs::MoveExists {
                        src,
                        name: entry.name.clone(),
                        is_dir: entry.is_dir,
                        dest: dest.clone(),
                    },
                );
            } else {
                self.pending_fs = Some(
                    PendingFs::CopyExists {
                        src,
                        name: entry.name.clone(),
                        is_dir: entry.is_dir,
                        dest: dest.clone(),
                    },
                );
            }
            Outcome::CheckExists { path: dest }
        } else {
            if is_move {
                self.pending_fs = Some(
                    PendingFs::MoveIsDir {
                        src,
                        name: entry.name.clone(),
                        is_dir: entry.is_dir,
                        dest0: base.clone(),
                    },
                );
            } else {
                self.pending_fs = Some(
                    PendingFs::CopyIsDir {
                        src,
                        name: entry.name.clone(),
                        is_dir: entry.is_dir,
                        dest0: base.clone(),
                    },
                );
            }
            Outcome::CheckIsDir { path: base }
        }
    }

    fn command_cd(&mut self, args: &str) -> (r: Outcome)
        requires
            old(self).wf(),
        ensures
            final(self).wf(),
            cd_step(*old(self), *final(self), args@, r),
            final(self).entries == old(self).entries,
            final(self).selected == old(self).selected,
            final(self).current_dir == old(self).current_dir,
            final(self).input_mode == old(self).input_mode,
            final(self).next_token == old(self).next_token,
            final(self).pending_token == old(self).pending_token,
            final(self).last_search == old(self).last_search,
            final(self).pending_external == old(self).pending_external,
    {
        let trimmed = trim_str(args);
        if trimmed.unicode_len() == 0 {
            self.status = String::from_str("cd failed: Usage: :cd <path>");
            self.pending_fs = None;
            return Outcome::Done;
        }
        let base = if abs_path(trimmed) {
            String::from_str(trimmed)
        } else {
            join_path(self.current_dir.as_str(), trimmed)
        };
        self.pending_fs = Some(PendingFs::CdResolve);
        Outcome::Resolve { path: base }
    }

    fn request_delete_confirmation(&mut self) -> (r: Outcome)
        requires
            old(self).wf(),
        ensures
            final(self).wf(),
            delete_step(*old(self), *final(self), r),
            final(self).entries == old(self).entries,
            final(self).selected == old(self).selected,
            final(self).current_dir == old(self).current_dir,
            final(self).next_token == old(self).next_token,
            final(self).pending_token == old(self).pending_token,
            final(self).last_search == old(self).last_search,
            final(self).pending_external == old(self).pending_external,
            final(self).pending_fs == old(self).pending_fs,
    {
        if self.entries.len() == 0 {
            self.status = String::from_str("Delete failed: No selection to delete");
            return Outcome::Done;
        }
        let entry = self.entries[self.selected].clone();
        let path = join_path(self.current_dir.as_str(), entry.name.as_str());
        let mut message = String::from_str("Delete '");
        message.append(entry.name.as_str());
        message.append("'?");
        self.clear_pending_count();
        self.input_mode = InputMode::Confirm {
            message,
            action: ConfirmAction::Delete { entry, path },
        };
        self.status = String::from_str("Confirm delete with y/n");
        Outcome::Done
    }

    fn command_edit(&mut self) -> (r: Outcome)
        requires
            old(self).wf(),
        ensures
            final(self).wf(),
            edit_step(*old(self), *final(self), r),
            final(self).entries == old(self).entries,
            final(self).selected == old(self).selected,
            final(self).current_dir == old(self).current_dir,
            final(self).input_mode == old(self).input_mode,
            final(self).next_token == old(self).next_token,
            final(self).pending_token == old(self).pending_token,
            final(self).last_search == old(self).last_search,
            final(self).pending_fs == old(self).pending_fs,
    {
        if self.entries.len() == 0 {
            self.status = String::from_str("edit failed: No selection to edit");
            return Outcome::Done;
        }
        let entry = self.entries[self.selected].clone();
        if entry.is_dir {
            self.status = String::from_str("edit failed: Cannot edit a directory");
            return Outcome::Done;
        }
        let path = join_path(self.current_dir.as_str(), entry.name.as_str());
        let mut status = String::from_str("Launching editor for ");
        status.append(entry.name.as_str());
        self.pending_external = Some(ExternalCommand::Edit { path, name: entry.name });
        self.status = status;
        Outcome::Done
    }

    fn command_shell(&mut self) -> (r: Outcome)
        requires
            old(self).wf(),
        ensures
            final(self).wf(),
            shell_step(*old(self), *final(self), r),
            final(self).entries == old(self).entries,
            final(self).selected == old(self).selected,
            final(self).current_dir == old(self).current_dir,
            final(self).input_mode == old(self).input_mode,
            final(self).next_token == old(self).next_token,
            final(self).pending_token == old(self).pending_token,
            final(self).last_search == old(self).last_search,
            final(self).pending_fs == old(self).pending_fs,
    {
        let mut status = String::from_str("Launching shell in ");
        status.append(self.current_dir.as_str());
        self.pending_external = Some(ExternalCommand::Shell { dir: self.current_dir.clone() });
        self.status = status;
        Outcome::Done
    }

    /// Interprets one command line: splits it, resolves the alias, validates,
    /// and either finishes with a status or asks its caller for the one
    /// filesystem fact or action the command needs next.
    pub fn run_command(&mut self, input: &str) -> (r: Outcome)
        requires
            old(self).wf(),
            old(self).next_token < u64::MAX,
        ensures
            final(self).wf(),
            final(self).entries == old(self).entries,
            final(self).selected == old(self).selected,
            final(self).current_dir == old(self).current_dir,
            final(self).last_search == old(self).last_search,
            run_command_step(*old(self), *final(self), input@, r),
    {
        let trimmed = trim_str(input);
        if trimmed.unicode_len() == 0 {
            self.status = String::from_str("Empty command");
            return Outcome::Done;
        }
        let (cmd_word, args) = split_command(trimmed);
        let command = self.resolve_command_alias(cmd_word);
        let c = command.as_str();
        if str_eq(c, "pwd") {
            self.status = self.current_dir.clone();
            Outcome::Done
        } else if str_eq(c, "refresh") {
            let scan = self.refresh_async(false);
            self.status = String::from_str("Refresh requested");
            Outcome::Scan(scan)
        } else if str_eq(c, "q") || str_eq(c, "quit") {
            self.status = String::from_str("Use 'q' in normal mode to quit");
            Outcome::Done
        } else if str_eq(c, "rename") {
            if args.unicode_len() == 0 {
                self.status = String::from_str("Usage: :rename <new_name>");
                Outcome::Done
            } else {
                self.command_rename(args)
            }
        } else if str_eq(c, "delete") {
            self.request_delete_confirmation()
        } else if str_eq(c, "mkdir") {
            if args.unicode_len() == 0 {
                self.status = String::from_str("Usage: :mkdir <name>");
                Outcome::Done
            } else {
                self.command_create(args, true)
            }
        } else if str_eq(c, "touch") {
            if args.unicode_len() == 0 {
                self.status = String::from_str("Usage: :touch <name>");
                Outcome::Done
            } else {
                self.command_create(args, false)
            }
        } else if str_eq(c, "copy") {
            if args.unicode_len() == 0 {
                self.status = String::from_str("Usage: :copy <destination>");
                Outcome::Done
            } else {
                self.command_transfer(args, false)
            }
        } else if str_eq(c, "move") {
            if args.unicode_len() == 0 {
                self.status = String::from_str("Usage: :move <destination>");
                Outcome::Done
            } else {
                self.command_transfer(args, true)
            }
        } else if str_eq(c, "sh") {
            self.command_shell()
        } else if str_eq(c, "edit") {
            self.command_edit()
        } else if str_eq(c, "cd") {
            if args.unicode_len() == 0 {
                self.status = String::from_str("Usage: :cd <path>");
                Outcome::Done
            } else {
                self.command_cd(args)
            }
        } else if str_eq(c, "help") {
            self.status = String::from_str(
                "Commands: pwd, refresh, rename, delete, mkdir, touch, copy, move, edit, sh, cd, help",
            );
            Outcome::Done
        } else {
            let mut status = String::from_str("Unknown command: ");
            status.append(c);
            self.status = status;
            Outcome::Done
        }
    }
}

/// How one command line steps the engine, keyed on the resolved command word.
pub open spec fn run_command_step(pre: App, post: App, input: Seq<char>, r: Outcome) -> bool {
    let t = trim_spec(input);
    let cmd = alias_lookup(pre.command_aliases@, lower_of(split_cmd_spec(t)));
    let args = split_args_spec(t);
    &&& ((t.len() > 0 && cmd == "delete"@) || post.input_mode == pre.input_mode)
    &&& if t.len() == 0 {
        r is Done && post.status@ == "Empty command"@
    } else if cmd == "pwd"@ {
        r is Done && post.status@ == pre.current_dir@
    } else if cmd == "refresh"@ {
        &&& (r matches Outcome::Scan(s) && s.path@ == pre.current_dir@
            && s.token == pre.next_token)
        &&& post.status@ == "Refresh requested"@
        &&& post.pending_token == Some(pre.next_token)
    } else if cmd == "q"@ || cmd == "quit"@ {
        r is Done && post.status@ == "Use 'q' in normal mode to quit"@
    } else if cmd == "rename"@ {
        if args.len() == 0 {
            r is Done && post.status@ == "Usage: :rename <new_name>"@
        } else {
            rename_step(pre, post, args, r)
        }
    } else if cmd == "delete"@ {
        delete_step(pre, post, r)
    } else if cmd == "mkdir"@ {
        if args.len() == 0 {
            r is Done && post.status@ == "Usage: :mkdir <name>"@
        } else {
            create_step(pre, post, args, r, "mkdir failed: "@, true)
        }
    } else if cmd == "touch"@ {
        if args.len() == 0 {
            r is Done && post.status@ == "Usage: :touch <name>"@
        } else {
            create_step(pre, post, args, r, "touch failed: "@, false)
        }
    } else if cmd == "copy"@ {
        if args.len() == 0 {
            r is Done && post.status@ == "Usage: :copy <destination>"@
        } else {
            transfer_step(pre, post, args, r, "copy failed: "@, false)
        }
    } else if cmd == "move"@ {
        if args.len() == 0 {
            r is Done && post.status@ == "Usage: :move <destination>"@
        } else {
            transfer_step(pre, post, args, r, "move failed: "@, true)
        }
    } else if cmd == "sh"@ {
        shell_step(pre, post, r)
    } else if cmd == "edit"@ {
        edit_step(pre, post, r)
    } else if cmd == "cd"@ {
        if args.len() == 0 {
            r is Done && post.status@ == "Usage: :cd <path>"@
        } else {
            cd_step(pre, post, args, r)
        }
    } else if cmd == "help"@ {
        r is Done && post.status@
            == "Commands: pwd, refresh, rename, delete, mkdir, touch, copy, move, edit, sh, cd, help"@
    } else {
        r is Done && post.status@ == "Unknown command: "@ + cmd
    }
}

/// The first entry index with the given name, if any.
pub open spec fn find_by_name_from(s: Seq<FileEntry>, name: Seq<char>, i: int) -> Option<int>
    decreases s.len() - i,
{
    if i < 0 || i >= s.len() {
        None
    } else if s[i].name@ == name {
        Some(i)
    } else {
        find_by_name_from(s, name, i + 1)
    }
}

pub open spec fn find_by_name(s: Seq<FileEntry>, name: Seq<char>) -> Option<int> {
    find_by_name_from(s, name, 0)
}

/// Whether a confirmed delete removes a directory: decided against the
/// current entry list where the name is still listed, else against the
/// snapshot carried by the confirmation.
pub open spec fn delete_is_dir(entries: Seq<FileEntry>, entry: FileEntry) -> bool {
    match find_by_name(entries, entry.name@) {
        Some(i) => entries[i].is_dir,
        None => entry.is_dir,
    }
}

/// How a confirmed delete steps the engine: it asks for the removal of
/// exactly the path captured when confirmation was requested.
pub open spec fn confirm_delete_step(pre: App, post: App, action: ConfirmAction, r: Outcome) -> bool {
    match action {
        ConfirmAction::Delete { entry, path } => {
            &&& (if delete_is_dir(pre.entries@, entry) {
                r matches Outcome::Perform(FsAction::RemoveDir { path: p }) && p@ == path@
            } else {
                r matches Outcome::Perform(FsAction::RemoveFile { path: p }) && p@ == path@
            })
            &&& (post.pending_fs matches Some(PendingFs::Doing { clear, success, fail_prefix })
                && clear && success@ == "Deleted "@ + entry.name@ && fail_prefix@
                == "Action failed: "@)
            &&& post.entries == pre.entries
            &&& post.status == pre.status
        },
    }
}

/// How the answer to an existence question steps the engine, by the pending
/// command: a collision aborts with nothing touched; a free destination
/// yields the validated action. The entry list never changes here.
pub open spec fn answer_exists_step(pre: App, post: App, exists: bool, r: Outcome) -> bool {
    &&& post.entries == pre.entries
    &&& match pre.pending_fs {
        Some(PendingFs::RenameExists { src, dest, old_name, new_name }) => {
            if exists {
                &&& r is Done
                &&& post.status@ == "Rename failed: A file named '"@ + new_name@
                    + "' already exists"@
                &&& post.pending_fs is None
            } else {
                &&& (r matches Outcome::Perform(FsAction::Rename { src: s, dest: d })
                    && s@ == src@ && d@ == dest@)
                &&& (post.pending_fs matches Some(PendingFs::Doing {
                    clear,
                    success,
                    fail_prefix,
                }) && clear && success@ == "Renamed "@ + old_name@ + " -> "@ + new_name@
                    && fail_prefix@ == "Rename failed: "@)
                &&& post.status == pre.status
            }
        },
        Some(PendingFs::MkdirExists { dest, name }) => {
            if exists {
                &&& r is Done
                &&& post.status@ == "mkdir failed: '"@ + name@
                    + "' already exists"@
                &&& post.pending_fs is None
            } else {
                &&& (r matches Outcome::Perform(FsAction::CreateDir { path }) && path@
                    == dest@)
                &&& (post.pending_fs matches Some(PendingFs::Doing {
                    clear,
                    success,
                    fail_prefix,
                }) && !clear && success@ == "Created directory "@ + name@ && fail_prefix@
                    == "mkdir failed: "@)
                &&& post.status == pre.status
            }
        },
        Some(PendingFs::TouchExists { dest, name }) => {
            if exists {
                &&& r is Done
                &&& post.status@ == "touch failed: '"@ + name@
                    + "' already exists"@
                &&& post.pending_fs is None
            } else {
                &&& (r matches Outcome::Perform(FsAction::CreateFile { path }) && path@
                    == dest@)
                &&& (post.pending_fs matches Some(PendingFs::Doing {
                    clear,
                    success,
                    fail_prefix,
                }) && !clear && success@ == "Touched "@ + name@ && fail_prefix@
                    == "touch failed: "@)
                &&& post.status == pre.status
            }
        },
        Some(PendingFs::CopyExists { src, name, is_dir, dest }) => {
            if exists {
                &&& r is Done
                &&& post.status@ == "copy failed: Destination "@ + dest@
                    + " already exists"@
                &&& post.pending_fs is None
            } else {
                &&& (if is_dir {
                    r matches Outcome::Perform(FsAction::CopyDir { src: s, dest: d })
                        && s@ == src@ && d@ == dest@
                } else {
                    r matches Outcome::Perform(FsAction::CopyFile { src: s, dest: d })
                        && s@ == src@ && d@ == dest@
                })
                &&& (post.pending_fs matches Some(PendingFs::Doing {
                    clear,
                    success,
                    fail_prefix,
                }) && !clear && success@ == "Copied "@ + name@ + " to "@ + dest@
                    && fail_prefix@ == "copy failed: "@)
                &&& post.status == pre.status
            }
        },
        Some(PendingFs::MoveExists { src, name, is_dir, dest }) => {
            if exists {
                &&& r is Done
                &&& post.status@ == "move failed: Destination "@ + dest@
                    + " already exists"@
                &&& post.pending_fs is None
            } else {
                &&& (if is_dir {
                    r matches Outcome::Perform(FsAction::MoveDir { src: s, dest: d })
                        && s@ == src@ && d@ == dest@
                } else {
                    r matches Outcome::Perform(FsAction::MoveFile { src: s, dest: d })
                        && s@ == src@ && d@ == dest@
                })
                &&& (post.pending_fs matches Some(PendingFs::Doing {
                    clear,
                    success,
                    fail_prefix,
                }) && clear && success@ == "Moved "@ + name@ + " to "@ + dest@
                    && fail_prefix@ == "move failed: "@)
                &&& post.status == pre.status
            }
        },
        _ => r is Done && post.pending_fs is None && post.status == pre.status,
            }
}

impl App {
    /// Whether the confirmed delete removes a directory, preferring what the
    /// current listing says of the name.
    fn effective_delete_is_dir(&self, entry: &FileEntry) -> (r: bool)
        ensures
            r == delete_is_dir(self.entries@, *entry),
    {
        let n = self.entries.len();
        let mut i: usize = 0;
        loop
            invariant
                0 <= i <= n,
                n == self.entries@.len(),
                find_by_name(self.entries@, entry.name@) == find_by_name_from(
                    self.entries@,
                    entry.name@,
                    i as int,
                ),
            decreases n - i,
        {
            if i == n {
                return entry.is_dir;
            }
            if str_eq(self.entries[i].name.as_str(), entry.name.as_str()) {
                return self.entries[i].is_dir;
            }
            i = i + 1;
        }
    }

    /// Executes a confirmed action; the filesystem work itself is handed
    /// back to the caller.
    pub fn execute_confirm_action(&mut self, action: ConfirmAction) -> (r: Outcome)
        requires
            old(self).wf(),
        ensures
            final(self).wf(),
            confirm_delete_step(*old(self), *final(self), action, r),
            final(self).entries == old(self).entries,
            final(self).selected == old(self).selected,
            final(self).current_dir == old(self).current_dir,
            final(self).input_mode == old(self).input_mode,
            final(self).next_token == old(self).next_token,
            final(self).pending_token == old(self).pending_token,
            final(self).last_search == old(self).last_search,
            final(self).pending_external == old(self).pending_external,
    {
        match action {
            ConfirmAction::Delete { entry, path } => {
                let is_dir = self.effective_delete_is_dir(&entry);
                let mut success = String::from_str("Deleted ");
                success.append(entry.name.as_str());
                self.pending_fs = Some(
                    PendingFs::Doing {
                        clear: true,
                        success,
                        fail_prefix: String::from_str("Action failed: "),
                    },
                );
                if is_dir {
                    Outcome::Perform(FsAction::RemoveDir { path })
                } else {
                    Outcome::Perform(FsAction::RemoveFile { path })
                }
            },
        }
    }

    /// Takes in the answer to a `CheckExists` question: a collision aborts
    /// the command with nothing touched; otherwise the validated action is
    /// handed out.
    pub fn answer_exists(&mut self, exists: bool) -> (r: Outcome)
        requires
            old(self).wf(),
        ensures
            final(self).wf(),
            final(self).entries == old(self).entries,
            final(self).selected == old(self).selected,
            final(self).current_dir == old(self).current_dir,
            final(self).input_mode == old(self).input_mode,
            final(self).next_token == old(self).next_token,
            final(self).pending_token == old(self).pending_token,
            final(self).last_search == old(self).last_search,
            final(self).pending_external == old(self).pending_external,
            answer_exists_step(*old(self), *final(self), exists, r),
    {
        let pending = self.pending_fs.take();
        match pending {
            Some(PendingFs::RenameExists { src, dest, old_name, new_name }) => {
                if exists {
                    let mut status = String::from_str("Rename failed: A file named '");
                    status.append(new_name.as_str());
                    status.append("' already exists");
                    self.status = status;
                    Outcome::Done
                } else {
                    let mut success = String::from_str("Renamed ");
                    success.append(old_name.as_str());
                    success.append(" -> ");
                    success.append(new_name.as_str());
                    self.pending_fs = Some(
                        PendingFs::Doing {
                            clear: true,
                            success,
                            fail_prefix: String::from_str("Rename failed: "),
                        },
                    );
                    Outcome::Perform(FsAction::Rename { src, dest })
                }
            },
            Some(PendingFs::MkdirExists { dest, name }) => {
                if exists {
                    let mut status = String::from_str("mkdir failed: '");
                    status.append(name.as_str());
                    status.append("' already exists");
                    self.status = status;
                    Outcome::Done
                } else {
                    let mut success = String::from_str("Created directory ");
                    success.append(name.as_str());
                    self.pending_fs = Some(
                        PendingFs::Doing {
                            clear: false,
                            success,
                            fail_prefix: String::from_str("mkdir failed: "),
                        },
                    );
                    Outcome::Perform(FsAction::CreateDir { path: dest })
                }
            },
            Some(PendingFs::TouchExists { dest, name }) => {
                if exists {
                    let mut status = String::from_str("touch failed: '");
                    status.append(name.as_str());
                    status.append("' already exists");
                    self.status = status;
                    Outcome::Done
                } else {
                    let mut success = String::from_str("Touched ");
                    success.append(name.as_str());
                    self.pending_fs = Some(
                        PendingFs::Doing {
                            clear: false,
                            success,
                            fail_prefix: String::from_str("touch failed: "),
                        },
                    );
                    Outcome::Perform(FsAction::CreateFile { path: dest })
                }
            },
            Some(PendingFs::CopyExists { src, name, is_dir, dest }) => {
                if exists {
                    let mut status = String::from_str("copy failed: Destination ");
                    status.append(dest.as_str());
                    status.append(" already exists");
                    self.status = status;
                    Outcome::Done
                } else {
                    let mut success = String::from_str("Copied ");
                    success.append(name.as_str());
                    success.append(" to ");
                    success.append(dest.as_str());
                    self.pending_fs = Some(
                        PendingFs::Doing {
                            clear: false,
                            success,
                            fail_prefix: String::from_str("copy failed: "),
                        },
                    );
                    if is_dir {
                        Outcome::Perform(FsAction::CopyDir { src, dest })
                    } else {
                        Outcome::Perform(FsAction::CopyFile { src, dest })
                    }
                }
            },
            Some(PendingFs::MoveExists { src, name, is_dir, dest }) => {
                if exists {
                    let mut status = String::from_str("move failed: Destination ");
                    status.append(dest.as_str());
                    status.append(" already exists");
                    self.status = status;
                    Outcome::Done
                } else {
                    let mut success = String::from_str("Moved ");
                    success.append(name.as_str());
                    success.append(" to ");
                    success.append(dest.as_str());
                    self.pending_fs = Some(
                        PendingFs::Doing {
                            clear: true,
                            success,
                            fail_prefix: String::from_str("move failed: "),
                        },
                    );
                    if is_dir {
                        Outcome::Perform(FsAction::MoveDir { src, dest })
                    } else {
                        Outcome::Perform(FsAction::MoveFile { src, dest })
                    }
                }
            },
            _ => Outcome::Done,
        }
    }

    /// Takes in the answer to a `CheckIsDir` question: a directory target
    /// receives the entry name as one more component, then the collision
    /// check follows.
    pub fn answer_is_dir(&mut self, is_dir: bool) -> (r: Outcome)
        requires
            old(self).wf(),
        ensures
            final(self).wf(),
            final(self).entries == old(self).entries,
            final(self).selected == old(self).selected,
            final(self).current_dir == old(self).current_dir,
            final(self).input_mode == old(self).input_mode,
            final(self).next_token == old(self).next_token,
            final(self).pending_token == old(self).pending_token,
            final(self).last_search == old(self).last_search,
            final(self).pending_external == old(self).pending_external,
            final(self).status == old(self).status,
            match old(self).pending_fs {
                Some(PendingFs::CopyIsDir { src, name, is_dir: entry_is_dir, dest0 }) => ({
                    let dest = if is_dir {
                        join_spec(dest0@, name@)
                    } else {
                        dest0@
                    };
                    &&& (r matches Outcome::CheckExists { path } && path@ == dest)
                    &&& (final(self).pending_fs matches Some(PendingFs::CopyExists {
                        src: s,
                        name: n,
                        is_dir: e,
                        dest: d,
                    }) && s@ == src@ && n@ == name@ && e == entry_is_dir && d@ == dest)
                }),
                Some(PendingFs::MoveIsDir { src, name, is_dir: entry_is_dir, dest0 }) => ({
                    let dest = if is_dir {
                        join_spec(dest0@, name@)
                    } else {
                        dest0@
                    };
                    &&& (r matches Outcome::CheckExists { path } && path@ == dest)
                    &&& (final(self).pending_fs matches Some(PendingFs::MoveExists {
                        src: s,
                        name: n,
                        is_dir: e,
                        dest: d,
                    }) && s@ == src@ && n@ == name@ && e == entry_is_dir && d@ == dest)
                }),
                _ => r is Done && final(self).pending_fs is None,
            },
    {
        let pending = self.pending_fs.take();
        match pending {
            Some(PendingFs::CopyIsDir { src, name, is_dir: entry_is_dir, dest0 }) => {
                let dest = if is_dir {
                    join_path(dest0.as_str(), name.as_str())
                } else {
                    dest0
                };
                self.pending_fs = Some(
                    PendingFs::CopyExists {
                        src,
                        name,
                        is_dir: entry_is_dir,
                        dest: dest.clone(),
                    },
                );
                Outcome::CheckExists { path: dest }
            },
            Some(PendingFs::MoveIsDir { src, name, is_dir: entry_is_dir, dest0 }) => {
                let dest = if is_dir {
                    join_path(dest0.as_str(), name.as_str())
                } else {
                    dest0
                };
                self.pending_fs = Some(
                    PendingFs::MoveExists {
                        src,
                        name,
                        is_dir: entry_is_dir,
                        dest: dest.clone(),
                    },
                );
                Outcome::CheckExists { path: dest }
            },
            _ => Outcome::Done,
        }
    }

    /// Takes in the canonicalized target of a cd: a resolved directory
    /// becomes the current one and is scanned; anything else only reports.
    pub fn answer_resolve(&mut self, result: Result<(String, bool), String>) -> (r: Outcome)
        requires
            old(self).wf(),
            old(self).next_token < u64::MAX,
            (result matches Ok(p) ==> is_abs_path(p.0@)),
        ensures
            final(self).wf(),
            final(self).entries@.len() <= old(self).entries@.len(),
            match old(self).pending_fs {
                Some(PendingFs::CdResolve) => match result {
                    Ok(p) => {
                        if p.1 {
                            &&& (r matches Outcome::Scan(s) && s.path@ == p.0@ && s.token == old(
                                self,
                            ).next_token)
                            &&& final(self).current_dir@ == p.0@
                            &&& final(self).pending_token == Some(old(self).next_token)
                            &&& final(self).last_search is None
                            &&& final(self).entries@.len() == 0
                            &&& (final(self).last_action_message matches Some(m) && m@
                                == "Changed directory"@)
                            &&& final(self).pending_fs is None
                        } else {
                            &&& r is Done
                            &&& final(self).status@ == "cd failed: "@ + p.0@
                                + " is not a directory"@
                            &&& final(self).current_dir == old(self).current_dir
                            &&& final(self).entries == old(self).entries
                            &&& final(self).pending_fs is None
                        }
                    },
                    Err(e) => {
                        &&& r is Done
                        &&& final(self).status@ == "cd failed: "@ + e@
                        &&& final(self).current_dir == old(self).current_dir
                        &&& final(self).entries == old(self).entries
                        &&& final(self).pending_fs is None
                    },
                },
                _ => r is Done && final(self).pending_fs is None && final(self).entries == old(
                    self,
                ).entries && final(self).current_dir == old(self).current_dir,
            },
    {
        let pending = self.pending_fs.take();
        match pending {
            Some(PendingFs::CdResolve) => match result {
                Ok((canon, dir_ok)) => {
                    if dir_ok {
                        self.current_dir = canon;
                        self.reset_search_state();
                        let scan = self.refresh_with_message(
                            true,
                            String::from_str("Changed directory"),
                        );
                        Outcome::Scan(scan)
                    } else {
                        let mut status = String::from_str("cd failed: ");
                        status.append(canon.as_str());
                        status.append(" is not a directory");
                        self.status = status;
                        Outcome::Done
                    }
                },
                Err(e) => {
                    let mut status = String::from_str("cd failed: ");
                    status.append(e.as_str());
                    self.status = status;
                    Outcome::Done
                },
            },
            _ => Outcome::Done,
        }
    }

    /// Takes in the outcome of a dispatched action: success refreshes the
    /// listing with the prepared message; failure reports it with the
    /// command's prefix. A failed move after a completed copy is reported,
    /// never rolled back.
    pub fn action_done(&mut self, result: Result<(), String>) -> (r: Outcome)
        requires
            old(self).wf(),
            old(self).next_token < u64::MAX,
        ensures
            final(self).wf(),
            final(self).current_dir == old(self).current_dir,
            final(self).pending_fs is None,
            match old(self).pending_fs {
                Some(PendingFs::Doing { clear, success, fail_prefix }) => match result {
                    Ok(u) => {
                        &&& (r matches Outcome::Scan(s) && s.path@ == old(self).current_dir@
                            && s.token == old(self).next_token)
                        &&& (final(self).last_action_message matches Some(m) && m@ == success@)
                        &&& (clear ==> final(self).entries@.len() == 0)
                        &&& (!clear ==> final(self).entries == old(self).entries)
                    },
                    Err(e) => {
                        &&& r is Done
                        &&& final(self).status@ == fail_prefix@ + e@
                        &&& final(self).entries == old(self).entries
                    },
                },
                _ => r is Done && final(self).entries == old(self).entries && final(self).status
                    == old(self).status,
            },
    {
        let pending = self.pending_fs.take();
        match pending {
            Some(PendingFs::Doing { clear, success, fail_prefix }) => match result {
                Ok(_) => {
                    let scan = self.refresh_with_message(clear, success);
                    Outcome::Scan(scan)
                },
                Err(e) => {
                    let mut status = fail_prefix;
                    status.append(e.as_str());
                    self.status = status;
                    Outcome::Done
                },
            },
            _ => Outcome::Done,
        }
    }
}

/// Law: renaming to an already-existing name fails before the filesystem is
/// touched. Across the rename request and the collision answer no action is
/// ever handed out, so the source and the destination stay as they were, and
/// the shown entry list is unchanged.
pub proof fn lemma_rename_collision_untouched(
    pre: App,
    mid: App,
    post: App,
    args: Seq<char>,
    q: Outcome,
    r: Outcome,
)
    requires
        rename_step(pre, mid, args, q),
        mid.entries == pre.entries,
        answer_exists_step(mid, post, true, r),
    ensures
        !(q is Perform),
        !(r is Perform),
        post.entries == pre.entries,
{
}


} // verus!
