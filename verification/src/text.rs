//! Character and string utilities: whitespace classification, trimming,
//! command-line splitting, lexicographic comparison, substring search,
//! decimal rendering, and path manipulation over plain strings.

use vstd::prelude::*;
use vstd::string::StrSliceExecFns;
use vstd::string::StringExecFns;

verus! {

/// The Unicode `White_Space` code points, as `str::trim` sees them.
pub open spec fn is_space_char(c: char) -> bool {
    let u = c as u32;
    (0x9 <= u && u <= 0xd) || u == 0x20 || u == 0x85 || u == 0xa0 || u == 0x1680 || (0x2000 <= u
        && u <= 0x200a) || u == 0x2028 || u == 0x2029 || u == 0x202f || u == 0x205f || u == 0x3000
}

pub fn space_char(c: char) -> (r: bool)
    ensures
        r == is_space_char(c),
{
    let u = c as u32;
    (0x9 <= u && u <= 0xd) || u == 0x20 || u == 0x85 || u == 0xa0 || u == 0x1680 || (0x2000 <= u
        && u <= 0x200a) || u == 0x2028 || u == 0x2029 || u == 0x202f || u == 0x205f || u == 0x3000
}

/// The Unicode control code points (C0, DEL and C1), as `char::is_control`
/// sees them.
pub open spec fn is_control_char(c: char) -> bool {
    let u = c as u32;
    u < 0x20 || (0x7f <= u && u <= 0x9f)
}

pub fn control_char(c: char) -> (r: bool)
    ensures
        r == is_control_char(c),
{
    let u = c as u32;
    u < 0x20 || (0x7f <= u && u <= 0x9f)
}

/// Index of the first non-space character at or after `i`, or `s.len()`.
pub open spec fn skip_spaces(s: Seq<char>, i: int) -> int
    decreases s.len() - i,
{
    if i < 0 || i >= s.len() {
        s.len() as int
    } else if is_space_char(s[i]) {
        skip_spaces(s, i + 1)
    } else {
        i
    }
}

proof fn lemma_skip_spaces_from(s: Seq<char>, from: int, found: int)
    requires
        0 <= from <= found <= s.len(),
        forall|j: int| from <= j < found ==> is_space_char(s[j]),
        found == s.len() || !is_space_char(s[found]),
    ensures
        skip_spaces(s, from) == found,
    decreases found - from,
{
    if from < found {
        lemma_skip_spaces_from(s, from + 1, found);
    }
}

/// Index just past the last non-space character before `i`, or `0`.
pub open spec fn rskip_spaces(s: Seq<char>, i: int) -> int
    decreases i,
{
    if i <= 0 || i > s.len() {
        0
    } else if is_space_char(s[i - 1]) {
        rskip_spaces(s, i - 1)
    } else {
        i
    }
}

proof fn lemma_rskip_spaces_from(s: Seq<char>, from: int, found: int)
    requires
        0 <= found <= from <= s.len(),
        forall|j: int| found <= j < from ==> is_space_char(s[j]),
        found == 0 || !is_space_char(s[found - 1]),
    ensures
        rskip_spaces(s, from) == found,
    decreases from - found,
{
    if found < from {
        lemma_rskip_spaces_from(s, from - 1, found);
    }
}

/// What `str::trim` leaves: the text between the leading and trailing runs
/// of whitespace.
pub open spec fn trim_spec(s: Seq<char>) -> Seq<char> {
    let a = skip_spaces(s, 0);
    if a == s.len() {
        Seq::<char>::empty()
    } else {
        s.subrange(a, rskip_spaces(s, s.len() as int))
    }
}

/// What `str::trim_start` leaves.
pub open spec fn trim_start_spec(s: Seq<char>) -> Seq<char> {
    s.subrange(skip_spaces(s, 0), s.len() as int)
}

/// First index at or after the start that holds whitespace, or `s.len()`.
pub open spec fn find_space(s: Seq<char>, i: int) -> int
    decreases s.len() - i,
{
    if i < 0 || i >= s.len() {
        s.len() as int
    } else if is_space_char(s[i]) {
        i
    } else {
        find_space(s, i + 1)
    }
}

proof fn lemma_find_space_from(s: Seq<char>, from: int, found: int)
    requires
        0 <= from <= found <= s.len(),
        forall|j: int| from <= j < found ==> !is_space_char(s[j]),
        found == s.len() || is_space_char(s[found]),
    ensures
        find_space(s, from) == found,
    decreases found - from,
{
    if from < found {
        lemma_find_space_from(s, from + 1, found);
    }
}

pub fn trim_str<'a>(s: &'a str) -> (r: &'a str)
    ensures
        r@ == trim_spec(s@),
{
    let n = s.unicode_len();
    let mut a: usize = 0;
    while a < n && space_char(s.get_char(a))
        invariant
            0 <= a <= n,
            n == s@.len(),
            forall|j: int| 0 <= j < a ==> is_space_char(s@[j]),
        decreases n - a,
    {
        a = a + 1;
    }
    proof {
        lemma_skip_spaces_from(s@, 0, a as int);
    }
    if a == n {
        let r = s.substring_char(0, 0);
        proof {
            assert(r@ =~= trim_spec(s@));
        }
        return r;
    }
    let mut b: usize = n;
    while b > 0 && space_char(s.get_char(b - 1))
        invariant
            0 <= b <= n,
            n == s@.len(),
            forall|j: int| b <= j < n ==> is_space_char(s@[j]),
        decreases b,
    {
        b = b - 1;
    }
    proof {
        lemma_rskip_spaces_from(s@, n as int, b as int);
    }
    let r = s.substring_char(a, b);
    r
}

pub fn trim_start_str<'a>(s: &'a str) -> (r: &'a str)
    ensures
        r@ == trim_start_spec(s@),
{
    let n = s.unicode_len();
    let mut a: usize = 0;
    while a < n && space_char(s.get_char(a))
        invariant
            0 <= a <= n,
            n == s@.len(),
            forall|j: int| 0 <= j < a ==> is_space_char(s@[j]),
        decreases n - a,
    {
        a = a + 1;
    }
    proof {
        lemma_skip_spaces_from(s@, 0, a as int);
    }
    s.substring_char(a, n)
}

/// The command word of an input line: everything before the first whitespace.
pub open spec fn split_cmd_spec(s: Seq<char>) -> Seq<char> {
    s.subrange(0, find_space(s, 0))
}

/// The argument text of an input line: everything after the first whitespace,
/// with its own leading whitespace dropped.
pub open spec fn split_args_spec(s: Seq<char>) -> Seq<char> {
    let k = find_space(s, 0);
    if k == s.len() {
        Seq::<char>::empty()
    } else {
        trim_start_spec(s.subrange(k + 1, s.len() as int))
    }
}

/// Splits an input line into the command word and the trailing argument
/// string, as the command interpreter reads it.
pub fn split_command<'a>(input: &'a str) -> (r: (&'a str, &'a str))
    ensures
        r.0@ == split_cmd_spec(input@),
        r.1@ == split_args_spec(input@),
{
    let n = input.unicode_len();
    let mut k: usize = 0;
    while k < n && !space_char(input.get_char(k))
        invariant
            0 <= k <= n,
            n == input@.len(),
            forall|j: int| 0 <= j < k ==> !is_space_char(input@[j]),
        decreases n - k,
    {
        k = k + 1;
    }
    proof {
        lemma_find_space_from(input@, 0, k as int);
    }
    let cmd = input.substring_char(0, k);
    if k == n {
        let rest = input.substring_char(n, n);
        proof {
            assert(rest@ =~= split_args_spec(input@));
        }
        (cmd, rest)
    } else {
        let tail = input.substring_char(k + 1, n);
        let rest = trim_start_str(tail);
        (cmd, rest)
    }
}

/// Character-for-character string equality.
pub fn str_eq(a: &str, b: &str) -> (r: bool)
    ensures
        r == (a@ == b@),
{
    let na = a.unicode_len();
    let nb = b.unicode_len();
    if na != nb {
        proof {
            assert(a@ != b@);
        }
        return false;
    }
    let mut i: usize = 0;
    while i < na
        invariant
            0 <= i <= na,
            na == a@.len(),
            na == b@.len(),
            forall|j: int| 0 <= j < i ==> a@[j] == b@[j],
        decreases na - i,
    {
        if a.get_char(i) != b.get_char(i) {
            proof {
                assert(a@ != b@);
            }
            return false;
        }
        i = i + 1;
    }
    proof {
        assert(a@ =~= b@);
    }
    true
}

/// Lexicographic order on code points: `a` sorts at or before `b`.
pub open spec fn lex_le(a: Seq<char>, b: Seq<char>) -> bool
    decreases a.len(),
{
    if a.len() == 0 {
        true
    } else if b.len() == 0 {
        false
    } else if (a[0] as u32) < (b[0] as u32) {
        true
    } else if (a[0] as u32) > (b[0] as u32) {
        false
    } else {
        lex_le(a.drop_first(), b.drop_first())
    }
}

pub proof fn lemma_lex_total(a: Seq<char>, b: Seq<char>)
    ensures
        lex_le(a, b) || lex_le(b, a),
    decreases a.len(),
{
    if a.len() > 0 && b.len() > 0 && (a[0] as u32) == (b[0] as u32) {
        lemma_lex_total(a.drop_first(), b.drop_first());
    }
}

pub proof fn lemma_lex_trans(a: Seq<char>, b: Seq<char>, c: Seq<char>)
    requires
        lex_le(a, b),
        lex_le(b, c),
    ensures
        lex_le(a, c),
    decreases a.len(),
{
    if a.len() > 0 && b.len() > 0 && c.len() > 0 && (a[0] as u32) == (b[0] as u32) && (b[0]
        as u32) == (c[0] as u32) {
        lemma_lex_trans(a.drop_first(), b.drop_first(), c.drop_first());
    }
}

proof fn lemma_lex_skip(a: Seq<char>, b: Seq<char>, i: int)
    requires
        0 <= i <= a.len(),
        i <= b.len(),
        forall|j: int| 0 <= j < i ==> (a[j] as u32) == (b[j] as u32),
    ensures
        lex_le(a, b) == lex_le(a.skip(i), b.skip(i)),
    decreases i,
{
    if i > 0 {
        assert(a.len() > 0 && b.len() > 0 && (a[0] as u32) == (b[0] as u32));
        lemma_lex_skip(a.drop_first(), b.drop_first(), i - 1);
        assert(a.drop_first().skip(i - 1) =~= a.skip(i));
        assert(b.drop_first().skip(i - 1) =~= b.skip(i));
    } else {
        assert(a.skip(0) =~= a);
        assert(b.skip(0) =~= b);
    }
}

pub fn lex_le_str(a: &str, b: &str) -> (r: bool)
    ensures
        r == lex_le(a@, b@),
{
    let na = a.unicode_len();
    let nb = b.unicode_len();
    let mut i: usize = 0;
    loop
        invariant
            0 <= i <= na,
            i <= nb,
            na == a@.len(),
            nb == b@.len(),
            forall|j: int| 0 <= j < i ==> (a@[j] as u32) == (b@[j] as u32),
        decreases na - i,
    {
        proof {
            lemma_lex_skip(a@, b@, i as int);
        }
        if i == na {
            return true;
        }
        if i == nb {
            return false;
        }
        let ca = a.get_char(i);
        let cb = b.get_char(i);
        if (ca as u32) < (cb as u32) {
            return true;
        }
        if (ca as u32) > (cb as u32) {
            return false;
        }
        i = i + 1;
    }
}

/// `needle` occurs somewhere in `hay` as a contiguous run.
pub open spec fn contains_sub(hay: Seq<char>, needle: Seq<char>) -> bool {
    exists|i: int|
        0 <= i && i + needle.len() <= hay.len() && #[trigger] hay.subrange(i, i + needle.len())
            == needle
}

pub fn contains_str(hay: &str, needle: &str) -> (r: bool)
    ensures
        r == contains_sub(hay@, needle@),
{
    let hn = hay.unicode_len();
    let nn = needle.unicode_len();
    if nn > hn {
        return false;
    }
    if nn == 0 {
        proof {
            assert(hay@.subrange(0, 0 + needle@.len() as int) =~= needle@);
        }
        return true;
    }
    let mut i: usize = 0;
    while i <= hn - nn
        invariant
            0 <= i <= hn - nn + 1,
            1 <= nn <= hn,
            hn == hay@.len(),
            nn == needle@.len(),
            forall|k: int|
                0 <= k < i ==> #[trigger] hay@.subrange(k, k + needle@.len()) != needle@,
        decreases hn - i,
    {
        let mut j: usize = 0;
        let mut hit = true;
        while j < nn
            invariant
                0 <= j <= nn,
                i + nn <= hn,
                hn == hay@.len(),
                nn == needle@.len(),
                hit ==> forall|t: int| 0 <= t < j ==> hay@[i + t] == needle@[t],
                !hit ==> hay@.subrange(i as int, i + needle@.len()) != needle@,
            decreases nn - j,
        {
            if hit && hay.get_char(i + j) != needle.get_char(j) {
                proof {
                    assert(hay@.subrange(i as int, i + needle@.len())[j as int] != needle@[j as int]);
                }
                hit = false;
            }
            j = j + 1;
        }
        if hit {
            proof {
                assert(hay@.subrange(i as int, i + needle@.len()) =~= needle@);
            }
            return true;
        }
        i = i + 1;
    }
    proof {
        assert forall|k: int| 0 <= k && k + needle@.len() <= hay@.len() implies #[trigger] hay@
            .subrange(k, k + needle@.len()) != needle@ by {
            assert(k < i);
        }
    }
    false
}

/// The decimal digits of `n`, most significant first.
pub open spec fn dec_of(n: nat) -> Seq<char>
    decreases n,
{
    if n < 10 {
        seq![digit_char(n)]
    } else {
        dec_of(n / 10).push(digit_char(n % 10))
    }
}

pub open spec fn digit_char(d: nat) -> char {
    if d == 0 {
        '0'
    } else if d == 1 {
        '1'
    } else if d == 2 {
        '2'
    } else if d == 3 {
        '3'
    } else if d == 4 {
        '4'
    } else if d == 5 {
        '5'
    } else if d == 6 {
        '6'
    } else if d == 7 {
        '7'
    } else if d == 8 {
        '8'
    } else {
        '9'
    }
}

fn digit_str(d: u64) -> (r: &'static str)
    requires
        d < 10,
    ensures
        r@ =~= seq![digit_char(d as nat)],
{
    proof {
        reveal_strlit("0");
        reveal_strlit("1");
        reveal_strlit("2");
        reveal_strlit("3");
        reveal_strlit("4");
        reveal_strlit("5");
        reveal_strlit("6");
        reveal_strlit("7");
        reveal_strlit("8");
        reveal_strlit("9");
    }
    match d {
        0 => "0",
        1 => "1",
        2 => "2",
        3 => "3",
        4 => "4",
        5 => "5",
        6 => "6",
        7 => "7",
        8 => "8",
        _ => "9",
    }
}

/// Renders `n` in decimal.
pub fn dec_string(n: u64) -> (r: String)
    ensures
        r@ == dec_of(n as nat),
    decreases n,
{
    if n < 10 {
        let r = String::from_str(digit_str(n));
        proof {
            assert(r@ =~= dec_of(n as nat));
        }
        r
    } else {
        let mut r = dec_string(n / 10);
        r.append(digit_str(n % 10));
        proof {
            assert(r@ =~= dec_of(n as nat));
        }
        r
    }
}

/// What `str::to_lowercase` yields; the result depends on the characters
/// alone.
pub uninterp spec fn lower_of(s: Seq<char>) -> Seq<char>;

/// Relies on `str::to_lowercase`: a pure, per-process-independent function of
/// the input text; an empty input stays empty.
#[verifier::external_body]
pub fn lowercase(s: &str) -> (r: String)
    ensures
        r@ == lower_of(s@),
        s@.len() == 0 ==> r@.len() == 0,
{
    s.to_lowercase()
}

/// Relies on `String::push`: appends exactly the one character.
#[verifier::external_body]
pub fn push_char(s: &mut String, c: char)
    ensures
        final(s)@ == old(s)@.push(c),
{
    s.push(c);
}

/// The string with its last character dropped, or unchanged when empty.
pub fn pop_char(s: &str) -> (r: String)
    ensures
        s@.len() > 0 ==> r@ == s@.drop_last(),
        s@.len() == 0 ==> r@ == s@,
{
    let n = s.unicode_len();
    if n == 0 {
        String::from_str(s)
    } else {
        let r = String::from_str(s.substring_char(0, n - 1));
        proof {
            assert(r@ =~= s@.drop_last());
        }
        r
    }
}

/// An absolute path: one that begins with the separator.
pub open spec fn is_abs_path(p: Seq<char>) -> bool {
    p.len() > 0 && p[0] == '/'
}

pub fn abs_path(p: &str) -> (r: bool)
    ensures
        r == is_abs_path(p@),
{
    let n = p.unicode_len();
    n > 0 && p.get_char(0) == '/'
}

/// `dir` with `name` appended as one more component.
pub open spec fn join_spec(dir: Seq<char>, name: Seq<char>) -> Seq<char> {
    if dir.len() > 0 && dir[dir.len() - 1] == '/' {
        dir + name
    } else {
        dir + "/"@ + name
    }
}

pub fn join_path(dir: &str, name: &str) -> (r: String)
    ensures
        r@ == join_spec(dir@, name@),
{
    let n = dir.unicode_len();
    let mut r = String::from_str(dir);
    if !(n > 0 && dir.get_char(n - 1) == '/') {
        r.append("/");
    }
    r.append(name);
    r
}

/// `p` ends in a separator, the "destination is a directory" hint.
pub open spec fn ends_with_sep(p: Seq<char>) -> bool {
    p.len() > 0 && (p[p.len() - 1] == '/' || p[p.len() - 1] == '\\')
}

pub fn has_dir_hint(p: &str) -> (r: bool)
    ensures
        r == ends_with_sep(p@),
{
    let n = p.unicode_len();
    if n == 0 {
        return false;
    }
    let c = p.get_char(n - 1);
    c == '/' || c == '\\'
}

/// Index just past the last `/` of `p`, assuming one exists.
pub open spec fn after_last_slash(p: Seq<char>, i: int) -> int
    decreases i,
{
    if i <= 0 || i > p.len() {
        0
    } else if p[i - 1] == '/' {
        i
    } else {
        after_last_slash(p, i - 1)
    }
}

proof fn lemma_after_last_slash_from(p: Seq<char>, from: int, found: int)
    requires
        0 <= found <= from <= p.len(),
        forall|j: int| found <= j < from ==> p[j] != '/',
        found == 0 || p[found - 1] == '/',
    ensures
        after_last_slash(p, from) == found,
    decreases from - found,
{
    if found < from {
        lemma_after_last_slash_from(p, from - 1, found);
    }
}

/// The parent directory of an absolute path, dropping the final component:
/// `None` at the root.
pub open spec fn parent_spec(p: Seq<char>) -> Option<Seq<char>> {
    if p.len() <= 1 {
        None
    } else {
        let k = after_last_slash(p, p.len() as int);
        if k <= 1 {
            Some("/"@)
        } else {
            Some(p.subrange(0, k - 1))
        }
    }
}

pub fn parent_path(p: &str) -> (r: Option<String>)
    requires
        is_abs_path(p@),
    ensures
        match r {
            Some(q) => parent_spec(p@) == Some(q@) && is_abs_path(q@),
            None => parent_spec(p@) is None,
        },
{
    let n = p.unicode_len();
    if n <= 1 {
        return None;
    }
    let mut k: usize = n;
    while k > 0 && p.get_char(k - 1) != '/'
        invariant
            0 <= k <= n,
            n == p@.len(),
            forall|j: int| k <= j < n ==> p@[j] != '/',
        decreases k,
    {
        k = k - 1;
    }
    proof {
        lemma_after_last_slash_from(p@, n as int, k as int);
    }
    if k <= 1 {
        let root = String::from_str("/");
        proof {
            reveal_strlit("/");
            assert(is_abs_path(root@));
        }
        Some(root)
    } else {
        let q = String::from_str(p.substring_char(0, k - 1));
        proof {
            assert(q@[0] == p@[0]);
        }
        Some(q)
    }
}

} // verus!
