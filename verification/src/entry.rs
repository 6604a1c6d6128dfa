//! Directory entries and the listing order: directories first, then
//! case-insensitive name order within each group.

use vstd::prelude::*;
use crate::text::{lex_le, lex_le_str, lower_of, lowercase, dec_of, dec_string, lemma_lex_total,
    lemma_lex_trans};

verus! {

broadcast use vstd::seq_lib::group_to_multiset_ensures;

/// An immutable snapshot of one directory child. `size` is present only for
/// files; `modified` is seconds since the epoch, when known.
pub struct FileEntry {
    pub name: String,
    pub is_dir: bool,
    pub size: Option<u64>,
    pub modified: Option<u64>,
}

impl Clone for FileEntry {
    fn clone(&self) -> (r: Self)
        ensures
            r == *self,
    {
        FileEntry {
            name: self.name.clone(),
            is_dir: self.is_dir,
            size: self.size,
            modified: self.modified,
        }
    }
}

/// The listing order: directories before files; within a group,
/// case-insensitive lexicographic name order.
pub open spec fn entry_le(a: FileEntry, b: FileEntry) -> bool {
    if a.is_dir != b.is_dir {
        a.is_dir
    } else {
        lex_le(lower_of(a.name@), lower_of(b.name@))
    }
}

pub proof fn lemma_entry_le_total(a: FileEntry, b: FileEntry)
    ensures
        entry_le(a, b) || entry_le(b, a),
{
    if a.is_dir == b.is_dir {
        lemma_lex_total(lower_of(a.name@), lower_of(b.name@));
    }
}

pub proof fn lemma_entry_le_trans(a: FileEntry, b: FileEntry, c: FileEntry)
    requires
        entry_le(a, b),
        entry_le(b, c),
    ensures
        entry_le(a, c),
{
    if a.is_dir == b.is_dir && b.is_dir == c.is_dir {
        lemma_lex_trans(lower_of(a.name@), lower_of(b.name@), lower_of(c.name@));
    }
}

fn entry_le_exec(a: &FileEntry, b: &FileEntry) -> (r: bool)
    ensures
        r == entry_le(*a, *b),
{
    if a.is_dir != b.is_dir {
        a.is_dir
    } else {
        let la = lowercase(a.name.as_str());
        let lb = lowercase(b.name.as_str());
        lex_le_str(la.as_str(), lb.as_str())
    }
}

/// Every entry sorts at or before every later one.
pub open spec fn entries_sorted(s: Seq<FileEntry>) -> bool {
    forall|i: int, j: int| 0 <= i < j < s.len() ==> entry_le(s[i], s[j])
}

pub proof fn lemma_lex_le_refl(a: Seq<char>)
    ensures
        lex_le(a, a),
    decreases a.len(),
{
    if a.len() > 0 {
        lemma_lex_le_refl(a.drop_first());
    }
}

/// The entries of one group with one folded name, in their listed order.
/// The listing order cannot tell such entries apart, so a stable sort must
/// keep this subsequence as it was.
pub open spec fn key_run(s: Seq<FileEntry>, dir_group: bool, folded: Seq<char>) -> Seq<FileEntry> {
    s.filter(|x: FileEntry| x.is_dir == dir_group && lower_of(x.name@) == folded)
}

proof fn lemma_key_run_empty(dir_group: bool, folded: Seq<char>)
    ensures
        key_run(Seq::<FileEntry>::empty(), dir_group, folded) == Seq::<FileEntry>::empty(),
{
    reveal(Seq::filter);
}

proof fn lemma_key_run_push(s: Seq<FileEntry>, e: FileEntry, dir_group: bool, folded: Seq<char>)
    ensures
        key_run(s.push(e), dir_group, folded) == (if e.is_dir == dir_group && lower_of(e.name@)
            == folded {
            key_run(s, dir_group, folded).push(e)
        } else {
            key_run(s, dir_group, folded)
        }),
{
    reveal(Seq::filter);
    assert(s.push(e).drop_last() =~= s);
    assert(s.push(e).last() == e);
}

proof fn lemma_key_run_concat(a: Seq<FileEntry>, b: Seq<FileEntry>, dir_group: bool, folded: Seq<char>)
    ensures
        key_run(a + b, dir_group, folded) == key_run(a, dir_group, folded) + key_run(
            b,
            dir_group,
            folded,
        ),
    decreases b.len(),
{
    if b.len() == 0 {
        assert(a + b =~= a);
        lemma_key_run_empty(dir_group, folded);
        assert(key_run(a, dir_group, folded) + key_run(b, dir_group, folded) =~= key_run(
            a,
            dir_group,
            folded,
        ));
    } else {
        lemma_key_run_concat(a, b.drop_last(), dir_group, folded);
        assert(a + b =~= (a + b.drop_last()).push(b.last()));
        lemma_key_run_push(a + b.drop_last(), b.last(), dir_group, folded);
        assert(b =~= b.drop_last().push(b.last()));
        lemma_key_run_push(b.drop_last(), b.last(), dir_group, folded);
        if b.last().is_dir == dir_group && lower_of(b.last().name@) == folded {
            assert(key_run(a, dir_group, folded) + key_run(b.drop_last(), dir_group, folded).push(
                b.last(),
            ) =~= (key_run(a, dir_group, folded) + key_run(b.drop_last(), dir_group, folded)).push(
                b.last(),
            ));
        }
    }
}

proof fn lemma_key_run_absent(s: Seq<FileEntry>, dir_group: bool, folded: Seq<char>)
    requires
        forall|i: int|
            0 <= i < s.len() ==> !(s[i].is_dir == dir_group && lower_of(#[trigger] s[i].name@)
                == folded),
    ensures
        key_run(s, dir_group, folded) == Seq::<FileEntry>::empty(),
    decreases s.len(),
{
    reveal(Seq::filter);
    if s.len() > 0 {
        lemma_key_run_absent(s.drop_last(), dir_group, folded);
    }
}

fn insert_sorted(r: &mut Vec<FileEntry>, e: FileEntry)
    requires
        entries_sorted(old(r)@),
    ensures
        entries_sorted(final(r)@),
        final(r)@.to_multiset() == old(r)@.to_multiset().insert(e),
        final(r)@.len() == old(r)@.len() + 1,
        forall|d: bool, f: Seq<char>|
            #[trigger] key_run(final(r)@, d, f) == (if e.is_dir == d && lower_of(e.name@) == f {
                key_run(old(r)@, d, f).push(e)
            } else {
                key_run(old(r)@, d, f)
            }),
{
    let ghost orig = r@;
    let mut pos: usize = 0;
    while pos < r.len() && entry_le_exec(&r[pos], &e)
        invariant
            0 <= pos <= r@.len(),
            r@ == orig,
            forall|k: int| 0 <= k < pos ==> entry_le(orig[k], e),
        decreases r@.len() - pos,
    {
        pos = pos + 1;
    }
    proof {
        if (pos as int) < orig.len() {
            lemma_entry_le_total(orig[pos as int], e);
        }
    }
    r.insert(pos, e);
    proof {
        let new = r@;
        assert forall|i: int| 0 <= i < pos implies new[i] == orig[i] by {
            assert(new[i] == orig.subrange(0, pos as int)[i]);
        }
        assert(new[pos as int] == e);
        assert forall|i: int| pos < i < new.len() implies new[i] == orig[i - 1] by {
            assert(new[i] == orig.subrange(pos as int, orig.len() as int)[i - pos - 1]);
        }
        assert forall|i: int, j: int| 0 <= i < j < new.len() implies entry_le(new[i], new[j]) by {
            if j < pos {
            } else if j == pos {
                assert(entry_le(orig[i], e));
            } else if i < pos {
                if j - 1 == i {
                    assert(entry_le(orig[i], e));
                    if (pos as int) < orig.len() {
                        lemma_entry_le_trans(orig[i], e, orig[pos as int]);
                    }
                }
            } else if i == pos {
                assert(entry_le(e, orig[pos as int]));
                if j - 1 > pos {
                    lemma_entry_le_trans(e, orig[pos as int], orig[j - 1]);
                }
            }
        }
        let front = orig.subrange(0, pos as int);
        let back = orig.subrange(pos as int, orig.len() as int);
        vstd::seq_lib::lemma_multiset_commutative(front.push(e), back);
        vstd::seq_lib::lemma_multiset_commutative(front, back);
        assert(front + back =~= orig);
        assert(new.to_multiset() =~= orig.to_multiset().insert(e));
        assert forall|d: bool, f: Seq<char>|
            #[trigger] key_run(new, d, f) == (if e.is_dir == d && lower_of(e.name@) == f {
                key_run(orig, d, f).push(e)
            } else {
                key_run(orig, d, f)
            }) by {
            lemma_key_run_concat(front.push(e), back, d, f);
            lemma_key_run_push(front, e, d, f);
            lemma_key_run_concat(front, back, d, f);
            assert(key_run(orig, d, f) == key_run(front, d, f) + key_run(back, d, f));
            if e.is_dir == d && lower_of(e.name@) == f {
                assert forall|j: int|
                    0 <= j < back.len() implies !(back[j].is_dir == d && lower_of(
                    #[trigger] back[j].name@,
                ) == f) by {
                    if back[j].is_dir == d && lower_of(back[j].name@) == f {
                        lemma_lex_le_refl(f);
                        assert(entry_le(back[j], e));
                        assert(back[j] == orig[pos + j]);
                        if j > 0 {
                            assert(entry_le(orig[pos as int], orig[pos + j]));
                            lemma_entry_le_trans(orig[pos as int], back[j], e);
                        }
                        assert(entry_le(orig[pos as int], e));
                        assert(forall|k: int| 0 <= k < pos ==> entry_le(orig[k], e));
                        assert(false);
                    }
                }
                lemma_key_run_absent(back, d, f);
                assert(key_run(front, d, f).push(e) + Seq::<FileEntry>::empty() =~= key_run(
                    front,
                    d,
                    f,
                ).push(e));
                assert(key_run(front, d, f) + Seq::<FileEntry>::empty() =~= key_run(front, d, f));
                assert(key_run(orig, d, f).push(e) =~= key_run(front, d, f).push(e));
            }
        }
    }
}

/// Stable insertion sort of a scanned listing into the listing order: the
/// result is sorted, is a permutation of the input, and keeps every run of
/// entries the order cannot tell apart in its input order.
pub fn sort_entries(entries: Vec<FileEntry>) -> (r: Vec<FileEntry>)
    ensures
        entries_sorted(r@),
        r@.to_multiset() == entries@.to_multiset(),
        r@.len() == entries@.len(),
        forall|d: bool, f: Seq<char>|
            #[trigger] key_run(r@, d, f) == key_run(entries@, d, f),
{
    let mut r: Vec<FileEntry> = Vec::new();
    proof {
        assert forall|d: bool, f: Seq<char>|
            #[trigger] key_run(r@, d, f) == key_run(entries@.subrange(0, 0), d, f) by {
            assert(r@ =~= entries@.subrange(0, 0));
        }
    }
    let mut i: usize = 0;
    while i < entries.len()
        invariant
            0 <= i <= entries@.len(),
            entries_sorted(r@),
            r@.to_multiset() == entries@.subrange(0, i as int).to_multiset(),
            r@.len() == i,
            forall|d: bool, f: Seq<char>|
                #[trigger] key_run(r@, d, f) == key_run(entries@.subrange(0, i as int), d, f),
        decreases entries@.len() - i,
    {
        let e = entries[i].clone();
        let ghost before = r@;
        insert_sorted(&mut r, e);
        proof {
            assert(entries@.subrange(0, i + 1) =~= entries@.subrange(0, i as int).push(
                entries@[i as int],
            ));
            assert forall|d: bool, f: Seq<char>|
                #[trigger] key_run(r@, d, f) == key_run(entries@.subrange(0, i + 1), d, f) by {
                lemma_key_run_push(entries@.subrange(0, i as int), entries@[i as int], d, f);
                assert(key_run(before, d, f) == key_run(entries@.subrange(0, i as int), d, f));
            }
        }
        i = i + 1;
    }
    proof {
        assert(entries@.subrange(0, entries@.len() as int) =~= entries@);
        assert forall|d: bool, f: Seq<char>|
            #[trigger] key_run(r@, d, f) == key_run(entries@, d, f) by {
            assert(key_run(r@, d, f) == key_run(entries@.subrange(0, entries@.len() as int), d, f));
        }
    }
    r
}

/// The detail text for an entry: its kind, name, size and age.
pub open spec fn describe_spec(e: FileEntry, now: u64) -> Seq<char> {
    let kind: Seq<char> = if e.is_dir {
        "Directory"@
    } else {
        "File"@
    };
    let size_txt: Seq<char> = match e.size {
        Some(s) => dec_of(s as nat) + " bytes"@,
        None => "\u{2014}"@,
    };
    let modified_txt: Seq<char> = match e.modified {
        Some(t) => if t <= now {
            dec_of((now - t) as nat) + "s ago"@
        } else {
            "unknown"@
        },
        None => "unknown"@,
    };
    kind + "\nName: "@ + e.name@ + "\nSize: "@ + size_txt + "\nModified: "@ + modified_txt
}

impl FileEntry {
    /// Renders the detail text, measuring age against `now` (seconds since
    /// the epoch).
    pub fn describe(&self, now: u64) -> (r: String)
        ensures
            r@ == describe_spec(*self, now),
    {
        let mut r = if self.is_dir {
            String::from_str("Directory")
        } else {
            String::from_str("File")
        };
        r.append("\nName: ");
        r.append(self.name.as_str());
        r.append("\nSize: ");
        match self.size {
            Some(s) => {
                let d = dec_string(s);
                r.append(d.as_str());
                r.append(" bytes");
            },
            None => {
                r.append("\u{2014}");
            },
        }
        r.append("\nModified: ");
        match self.modified {
            Some(t) => {
                if t <= now {
                    let d = dec_string(now - t);
                    r.append(d.as_str());
                    r.append("s ago");
                } else {
                    r.append("unknown");
                }
            },
            None => {
                r.append("unknown");
            },
        }
        r
    }
}

} // verus!
