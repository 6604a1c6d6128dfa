//! The bounded preview builder: a directory listing sample or a capped,
//! line-truncated text sample, with binary data labelled by its sniffed type.

use vstd::prelude::*;
use vstd::string::StrSliceExecFns;
use vstd::string::StringExecFns;

verus! {

/// Largest number of bytes a file preview is built from.
pub const PREVIEW_MAX_BYTES: usize = 8192;

/// Largest number of lines a text preview shows.
pub const PREVIEW_MAX_LINES: usize = 80;

/// Largest number of children a directory preview shows.
pub const PREVIEW_DIR_ENTRIES: usize = 12;

/// A title and body of derived text, regenerated wholesale from the current
/// selection.
pub struct PreviewPane {
    pub title: String,
    pub body: String,
}

impl Clone for PreviewPane {
    fn clone(&self) -> (r: Self)
        ensures
            r == *self,
    {
        PreviewPane { title: self.title.clone(), body: self.body.clone() }
    }
}

impl PreviewPane {
    pub fn new(title: &str, body: String) -> (r: Self)
        ensures
            r.title@ == title@,
            r.body@ == body@,
    {
        PreviewPane { title: String::from_str(title), body }
    }

    pub fn empty() -> (r: Self)
        ensures
            r.title@ == "Preview"@,
            r.body@ == "No file selected"@,
    {
        Self::new("Preview", String::from_str("No file selected"))
    }

    pub fn loading() -> (r: Self)
        ensures
            r.title@ == "Preview"@,
            r.body@ == "Loading preview..."@,
    {
        Self::new("Preview", String::from_str("Loading preview..."))
    }

    pub fn error(message: String) -> (r: Self)
        ensures
            r.title@ == "Preview"@,
            r.body@ == message@,
    {
        Self::new("Preview", message)
    }
}

/// One child shown in a directory preview.
pub struct DirRow {
    pub name: String,
    pub is_dir: bool,
}

/// What a preview is built from: a directory's first children (and whether
/// more were left unread), or a file's first bytes.
pub enum PreviewSource {
    Directory { rows: Vec<DirRow>, more: bool },
    File { bytes: Vec<u8> },
}

/// Whether the bytes look like text rather than binary data; what
/// `content_inspector::inspect` decides, a function of the bytes alone.
pub uninterp spec fn is_text_of(b: Seq<u8>) -> bool;

/// Relies on `content_inspector::inspect`: its verdict depends on the bytes
/// alone; everything but its binary verdict counts as text.
#[verifier::external_body]
fn is_text_data(buffer: &[u8]) -> (r: bool)
    ensures
        r == is_text_of(buffer@),
{
    !matches!(content_inspector::inspect(buffer), content_inspector::ContentType::BINARY)
}

/// The text that lossy UTF-8 decoding yields, a function of the bytes alone.
pub uninterp spec fn lossy_of(b: Seq<u8>) -> Seq<char>;

/// Relies on `String::from_utf8_lossy`: decoding depends on the bytes alone;
/// no bytes decode to no text.
#[verifier::external_body]
fn utf8_lossy(buffer: &[u8]) -> (r: String)
    ensures
        r@ == lossy_of(buffer@),
        buffer@.len() == 0 ==> r@.len() == 0,
{
    String::from_utf8_lossy(buffer).into_owned()
}

/// The "mime (extension)" label of a sniffed file type, when one matches; what
/// `infer::get` detects, a function of the bytes alone.
pub uninterp spec fn sniff_of(b: Seq<u8>) -> Option<Seq<char>>;

/// Relies on `infer::get`: detection walks a fixed matcher list over the
/// bytes alone; the label joins the match's mime type and extension.
#[verifier::external_body]
fn sniff_label(buffer: &[u8]) -> (r: Option<String>)
    ensures
        r.deep_view() == sniff_of(buffer@),
{
    infer::get(buffer).map(|kind| format!("{} ({})", kind.mime_type(), kind.extension()))
}

/// The label shown for a non-text file.
pub open spec fn file_type_label(b: Seq<u8>) -> Seq<char> {
    match sniff_of(b) {
        Some(t) => t,
        None => "Unknown type"@,
    }
}

fn describe_file_type(buffer: &[u8]) -> (r: String)
    ensures
        r@ == file_type_label(buffer@),
{
    match sniff_label(buffer) {
        Some(t) => t,
        None => String::from_str("Unknown type"),
    }
}

/// First index at or after `i` that holds a newline, or `s.len()`.
pub open spec fn find_nl(s: Seq<char>, i: int) -> int
    decreases s.len() - i,
{
    if i < 0 || i >= s.len() {
        s.len() as int
    } else if s[i] == '\n' {
        i
    } else {
        find_nl(s, i + 1)
    }
}

proof fn lemma_find_nl_bounds(s: Seq<char>, i: int)
    requires
        0 <= i <= s.len(),
    ensures
        i <= find_nl(s, i) <= s.len(),
    decreases s.len() - i,
{
    if i < s.len() && s[i] != '\n' {
        lemma_find_nl_bounds(s, i + 1);
    }
}

proof fn lemma_find_nl_from(s: Seq<char>, from: int, found: int)
    requires
        0 <= from <= found <= s.len(),
        forall|j: int| from <= j < found ==> s[j] != '\n',
        found == s.len() || s[found] == '\n',
    ensures
        find_nl(s, from) == found,
    decreases found - from,
{
    if from < found {
        lemma_find_nl_from(s, from + 1, found);
    }
}

/// A line with any trailing carriage return dropped, as `str::lines` yields
/// it.
pub open spec fn strip_cr(l: Seq<char>) -> Seq<char> {
    if l.len() > 0 && l[l.len() - 1] == '\r' {
        l.drop_last()
    } else {
        l
    }
}

/// The first `k` lines of `s` joined back with newlines, with a truncation
/// marker in place of any further lines.
pub open spec fn text_body(s: Seq<char>, k: nat) -> Seq<char>
    decreases s.len(),
    via text_body_dec
{
    if s.len() == 0 {
        Seq::<char>::empty()
    } else if k == 0 {
        "..."@
    } else {
        let i = find_nl(s, 0);
        let line = strip_cr(s.subrange(0, i));
        if i == s.len() {
            line
        } else {
            let rest = s.subrange(i + 1, s.len() as int);
            if rest.len() == 0 {
                line
            } else {
                line + "\n"@ + text_body(rest, (k - 1) as nat)
            }
        }
    }
}

#[via_fn]
proof fn text_body_dec(s: Seq<char>, k: nat) {
    if s.len() > 0 && k > 0 {
        lemma_find_nl_bounds(s, 0);
    }
}

fn first_line_end(s: &str) -> (r: usize)
    ensures
        r == find_nl(s@, 0),
        0 <= r <= s@.len(),
{
    let n = s.unicode_len();
    let mut i: usize = 0;
    while i < n && s.get_char(i) != '\n'
        invariant
            0 <= i <= n,
            n == s@.len(),
            forall|j: int| 0 <= j < i ==> s@[j] != '\n',
        decreases n - i,
    {
        i = i + 1;
    }
    proof {
        lemma_find_nl_from(s@, 0, i as int);
    }
    i
}

fn render_text_lines(s: &str, k: usize) -> (r: String)
    ensures
        r@ == text_body(s@, k as nat),
    decreases s@.len(),
{
    let n = s.unicode_len();
    if n == 0 {
        let r = String::new();
        proof {
            assert(r@ =~= text_body(s@, k as nat));
        }
        return r;
    }
    if k == 0 {
        return String::from_str("...");
    }
    let i = first_line_end(s);
    let raw = s.substring_char(0, i);
    let rn = raw.unicode_len();
    let line = if rn > 0 && raw.get_char(rn - 1) == '\r' {
        raw.substring_char(0, rn - 1)
    } else {
        raw
    };
    proof {
        assert(line@ =~= strip_cr(s@.subrange(0, i as int)));
    }
    if i == n {
        return String::from_str(line);
    }
    let rest = s.substring_char(i + 1, n);
    if rest.unicode_len() == 0 {
        return String::from_str(line);
    }
    let mut r = String::from_str(line);
    r.append("\n");
    let tail = render_text_lines(rest, k - 1);
    r.append(tail.as_str());
    r
}

/// The marker line of one directory child.
pub open spec fn row_line(r: DirRow) -> Seq<char> {
    if r.is_dir {
        "[D] "@ + r.name@
    } else {
        "[F] "@ + r.name@
    }
}

/// The shown children, one line each.
pub open spec fn dir_rows_body(rows: Seq<DirRow>) -> Seq<char>
    decreases rows.len(),
{
    if rows.len() == 0 {
        Seq::<char>::empty()
    } else if rows.len() == 1 {
        row_line(rows[0])
    } else {
        dir_rows_body(rows.drop_last()) + "\n"@ + row_line(rows.last())
    }
}

/// The whole body of a directory preview.
pub open spec fn dir_body(rows: Seq<DirRow>, more: bool) -> Seq<char> {
    let base: Seq<char> = if rows.len() == 0 {
        "Directory is empty"@
    } else {
        dir_rows_body(rows)
    };
    if more {
        base + "\n..."@
    } else {
        base
    }
}

fn preview_directory(rows: &Vec<DirRow>, more: bool) -> (p: PreviewPane)
    requires
        rows@.len() <= PREVIEW_DIR_ENTRIES,
    ensures
        p.title@ == "Preview"@,
        p.body@ == dir_body(rows@, more),
{
    let mut body = String::new();
    let mut i: usize = 0;
    while i < rows.len()
        invariant
            0 <= i <= rows@.len(),
            body@ == dir_rows_body(rows@.subrange(0, i as int)),
        decreases rows@.len() - i,
    {
        if i > 0 {
            body.append("\n");
        }
        if rows[i].is_dir {
            body.append("[D] ");
        } else {
            body.append("[F] ");
        }
        body.append(rows[i].name.as_str());
        proof {
            let pre = rows@.subrange(0, i as int);
            let cur = rows@.subrange(0, i + 1);
            assert(cur.drop_last() =~= pre);
            assert(cur.last() == rows@[i as int]);
            assert(body@ =~= dir_rows_body(cur));
        }
        i = i + 1;
    }
    proof {
        assert(rows@.subrange(0, rows@.len() as int) =~= rows@);
    }
    let mut base = if rows.len() == 0 {
        String::from_str("Directory is empty")
    } else {
        body
    };
    if more {
        base.append("\n...");
    }
    PreviewPane::new("Preview", base)
}

/// The whole body of a file preview built from the file's first bytes.
pub open spec fn file_body(bytes: Seq<u8>) -> Seq<char> {
    if bytes.len() == 0 {
        "<empty file>"@
    } else if is_text_of(bytes) {
        text_body(lossy_of(bytes), PREVIEW_MAX_LINES as nat)
    } else {
        "Non-text file\nType: "@ + file_type_label(bytes)
    }
}

fn preview_file(bytes: &Vec<u8>) -> (p: PreviewPane)
    requires
        bytes@.len() <= PREVIEW_MAX_BYTES,
    ensures
        p.title@ == "Preview"@,
        p.body@ == file_body(bytes@),
{
    if bytes.len() == 0 {
        return PreviewPane::new("Preview", String::from_str("<empty file>"));
    }
    if is_text_data(bytes.as_slice()) {
        let text = utf8_lossy(bytes.as_slice());
        let body = render_text_lines(text.as_str(), PREVIEW_MAX_LINES);
        return PreviewPane::new("Preview", body);
    }
    let label = describe_file_type(bytes.as_slice());
    let mut body = String::from_str("Non-text file\nType: ");
    body.append(label.as_str());
    PreviewPane::new("Preview", body)
}

/// Builds the preview for the current selection from what was read for it.
pub fn build_preview(source: &PreviewSource) -> (p: PreviewPane)
    requires
        match source {
            PreviewSource::Directory { rows, .. } => rows@.len() <= PREVIEW_DIR_ENTRIES,
            PreviewSource::File { bytes } => bytes@.len() <= PREVIEW_MAX_BYTES,
        },
    ensures
        p.title@ == "Preview"@,
        match source {
            PreviewSource::Directory { rows, more } => p.body@ == dir_body(rows@, *more),
            PreviewSource::File { bytes } => p.body@ == file_body(bytes@),
        },
{
    match source {
        PreviewSource::Directory { rows, more } => preview_directory(rows, *more),
        PreviewSource::File { bytes } => preview_file(bytes),
    }
}

} // verus!
