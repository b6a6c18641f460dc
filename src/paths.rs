//! Path strings: joining, normalising the extended-length prefix, and the
//! fixed directory layouts under which the server may be installed.
use vstd::prelude::*;

verus! {

/// The target platform family, which decides path syntax, spawn flags,
/// file-manager commands and whether lifetime binding exists.
#[derive(Clone, Copy, Debug, PartialEq, Eq, Structural)]
pub enum Platform {
    Windows,
    MacOs,
    Other,
}

/// Whether `c` separates path components on `p`: `/` everywhere, and `\`
/// on Windows too.
pub open spec fn is_separator(c: char, p: Platform) -> bool {
    c == '/' || (p == Platform::Windows && c == '\\')
}

/// The separator that joining inserts on `p`.
pub open spec fn separator(p: Platform) -> char {
    if p == Platform::Windows {
        '\\'
    } else {
        '/'
    }
}

/// Whether `c` is an ASCII letter.
pub open spec fn is_ascii_letter(c: char) -> bool {
    ('a' as u32 <= c as u32 && c as u32 <= 'z' as u32) || ('A' as u32 <= c as u32 && c as u32
        <= 'Z' as u32)
}

/// Whether `s` starts with a drive prefix such as `C:`.
pub open spec fn has_drive(s: Seq<char>) -> bool {
    s.len() >= 2 && s[1] == ':' && is_ascii_letter(s[0])
}

/// Whether `c` separates components of a Windows prefix: `\` always, and
/// `/` too outside the extended-length form.
pub open spec fn prefix_separator(c: char, backslash_only: bool) -> bool {
    c == '\\' || (!backslash_only && c == '/')
}

/// The first index from `i` on that holds a prefix separator, or the length.
pub open spec fn separator_from(s: Seq<char>, i: int, backslash_only: bool) -> int
    decreases s.len() - i,
{
    if i < 0 || i >= s.len() {
        s.len() as int
    } else if prefix_separator(s[i], backslash_only) {
        i
    } else {
        separator_from(s, i + 1, backslash_only)
    }
}

/// Whether `s` starts with the extended-length marker `\\?\`.
pub open spec fn is_verbatim(s: Seq<char>) -> bool {
    s.len() >= 4 && s[0] == '\\' && s[1] == '\\' && s[2] == '?' && s[3] == '\\'
}

/// The end of a `server\share` pair that starts at `start`: after the share,
/// or after the server when the share is empty.
pub open spec fn server_share_end(s: Seq<char>, start: int, backslash_only: bool) -> int {
    let e1 = separator_from(s, start, backslash_only);
    if e1 >= s.len() {
        s.len() as int
    } else if separator_from(s, e1 + 1, backslash_only) == e1 + 1 {
        e1
    } else {
        separator_from(s, e1 + 1, backslash_only)
    }
}

/// The length of the Windows prefix that `s` starts with, 0 for none:
/// `\\?\UNC\server\share`, `\\?\C:`, `\\?\name`, `\\.\device`,
/// `\\server\share` (both parts non-empty), or a drive such as `C:`.
pub open spec fn windows_prefix_len(s: Seq<char>) -> int {
    let w = Platform::Windows;
    if is_verbatim(s) {
        if s.len() >= 8 && s[4] == 'U' && s[5] == 'N' && s[6] == 'C' && s[7] == '\\' {
            server_share_end(s, 8, true)
        } else if s.len() >= 6 && s[5] == ':' && is_ascii_letter(s[4]) && (s.len() == 6 || s[6]
            == '\\') {
            6
        } else {
            separator_from(s, 4, true)
        }
    } else if s.len() >= 4 && is_separator(s[0], w) && is_separator(s[1], w) && s[2] == '.'
        && is_separator(s[3], w) {
        separator_from(s, 4, false)
    } else if s.len() >= 2 && is_separator(s[0], w) && is_separator(s[1], w) {
        let e1 = separator_from(s, 2, false);
        if e1 == 2 || e1 >= s.len() || separator_from(s, e1 + 1, false) == e1 + 1 {
            0
        } else {
            separator_from(s, e1 + 1, false)
        }
    } else if has_drive(s) {
        2
    } else {
        0
    }
}

/// Whether `rel` stands on its own when joined on `p`: on Windows a path
/// with a prefix, elsewhere a path from the root.
pub open spec fn replaces_base(rel: Seq<char>, p: Platform) -> bool {
    if p == Platform::Windows {
        windows_prefix_len(rel) > 0
    } else {
        rel.len() > 0 && rel[0] == '/'
    }
}

/// Whether `base` can be followed directly by `rel`, with no separator: it
/// is empty, ends in a separator (only `\` in the extended-length form), or
/// on Windows is a bare drive such as `C:`.
pub open spec fn ends_open(base: Seq<char>, rel: Seq<char>, p: Platform) -> bool {
    ||| base.len() == 0
    ||| if p == Platform::Windows && is_verbatim(base) && rel.len() > 0 {
        base.last() == '\\'
    } else {
        is_separator(base.last(), p)
    }
    ||| p == Platform::Windows && base.len() == 2 && has_drive(base)
}

/// `rel` joined onto `base` on `p` as the platform's path joining does:
/// a self-standing `rel` replaces `base`; on Windows a `rel` from the root
/// keeps only the prefix of `base`; otherwise one separator goes between
/// them unless `base` already ends open (an empty `rel` still adds it).
pub open spec fn join_spec(base: Seq<char>, rel: Seq<char>, p: Platform) -> Seq<char> {
    if replaces_base(rel, p) {
        rel
    } else if p == Platform::Windows && rel.len() > 0 && is_separator(rel[0], p) {
        base.take(windows_prefix_len(base)) + rel
    } else if ends_open(base, rel, p) {
        base + rel
    } else {
        base + seq![separator(p)] + rel
    }
}

fn is_sep(c: char, p: Platform) -> (r: bool)
    ensures
        r == is_separator(c, p),
{
    c == '/' || (p == Platform::Windows && c == '\\')
}

fn drive_at_start(s: &str, n: usize) -> (r: bool)
    requires
        n == s@.len(),
    ensures
        r == has_drive(s@),
{
    if n < 2 {
        return false;
    }
    let c = s.get_char(0);
    s.get_char(1) == ':' && (('a' as u32 <= c as u32 && c as u32 <= 'z' as u32) || ('A' as u32
        <= c as u32 && c as u32 <= 'Z' as u32))
}

fn separator_index(s: &str, n: usize, i: usize, backslash_only: bool) -> (r: usize)
    requires
        n == s@.len(),
        i <= n,
    ensures
        r as int == separator_from(s@, i as int, backslash_only),
        i <= r <= n,
{
    let mut j = i;
    while j < n
        invariant
            i <= j <= n,
            n == s@.len(),
            separator_from(s@, j as int, backslash_only) == separator_from(s@, i as int, backslash_only),
        decreases n - j,
    {
        let c = s.get_char(j);
        if c == '\\' || (!backslash_only && c == '/') {
            return j;
        }
        j = j + 1;
    }
    j
}

fn server_share_index(s: &str, n: usize, start: usize, backslash_only: bool) -> (r: usize)
    requires
        n == s@.len(),
        start <= n,
    ensures
        r as int == server_share_end(s@, start as int, backslash_only),
        r <= n,
{
    let e1 = separator_index(s, n, start, backslash_only);
    if e1 >= n {
        return n;
    }
    let e2 = separator_index(s, n, e1 + 1, backslash_only);
    if e2 == e1 + 1 {
        e1
    } else {
        e2
    }
}

fn verbatim_at_start(s: &str, n: usize) -> (r: bool)
    requires
        n == s@.len(),
    ensures
        r == is_verbatim(s@),
{
    n >= 4 && s.get_char(0) == '\\' && s.get_char(1) == '\\' && s.get_char(2) == '?' && s.get_char(
        3,
    ) == '\\'
}

fn is_letter(c: char) -> (r: bool)
    ensures
        r == is_ascii_letter(c),
{
    ('a' as u32 <= c as u32 && c as u32 <= 'z' as u32) || ('A' as u32 <= c as u32 && c as u32
        <= 'Z' as u32)
}

/// The length of the Windows prefix of `s`, as `windows_prefix_len` gives it.
pub fn windows_prefix(s: &str) -> (r: usize)
    ensures
        r as int == windows_prefix_len(s@),
        r <= s@.len(),
{
    let n = s.unicode_len();
    let w = Platform::Windows;
    if verbatim_at_start(s, n) {
        if n >= 8 && s.get_char(4) == 'U' && s.get_char(5) == 'N' && s.get_char(6) == 'C'
            && s.get_char(7) == '\\' {
            server_share_index(s, n, 8, true)
        } else if n >= 6 && s.get_char(5) == ':' && is_letter(s.get_char(4)) && (n == 6
            || s.get_char(6) == '\\') {
            6
        } else {
            separator_index(s, n, 4, true)
        }
    } else if n >= 4 && is_sep(s.get_char(0), w) && is_sep(s.get_char(1), w) && s.get_char(2)
        == '.' && is_sep(s.get_char(3), w) {
        separator_index(s, n, 4, false)
    } else if n >= 2 && is_sep(s.get_char(0), w) && is_sep(s.get_char(1), w) {
        let e1 = separator_index(s, n, 2, false);
        if e1 == 2 || e1 >= n {
            return 0;
        }
        let e2 = separator_index(s, n, e1 + 1, false);
        if e2 == e1 + 1 {
            0
        } else {
            e2
        }
    } else if drive_at_start(s, n) {
        2
    } else {
        0
    }
}

/// Joins two path strings on `p` as `join_spec` describes.
pub fn join(base: &str, rel: &str, p: Platform) -> (r: String)
    ensures
        r@ == join_spec(base@, rel@, p),
{
    let bl = base.unicode_len();
    let rl = rel.unicode_len();
    let windows = match p {
        Platform::Windows => true,
        _ => false,
    };
    if (windows && windows_prefix(rel) > 0) || (!windows && rl > 0 && rel.get_char(0) == '/') {
        return String::from_str(rel);
    }
    if windows && rl > 0 && is_sep(rel.get_char(0), p) {
        let k = windows_prefix(base);
        return String::from_str(base.substring_char(0, k)).concat(rel);
    }
    let open = bl == 0 || (if windows && verbatim_at_start(base, bl) && rl > 0 {
        base.get_char(bl - 1) == '\\'
    } else {
        is_sep(base.get_char(bl - 1), p)
    }) || (windows && bl == 2 && drive_at_start(base, bl));
    let mut r = String::from_str(base);
    if !open {
        if windows {
            proof {
                reveal_strlit("\\");
            }
            r.append("\\");
        } else {
            proof {
                reveal_strlit("/");
            }
            r.append("/");
        }
    }
    r.append(rel);
    proof {
        if !open {
            assert(r@ =~= base@ + seq![separator(p)] + rel@);
        }
    }
    r
}

/// `s` without what ends it and names nothing: trailing `/` characters and
/// `.` components other than a leading one.
pub open spec fn trim_tail(s: Seq<char>) -> Seq<char>
    decreases s.len(),
{
    if s.len() > 0 && s.last() == '/' {
        trim_tail(s.drop_last())
    } else if s.len() >= 2 && s.last() == '.' && s[s.len() - 2] == '/' {
        trim_tail(s.drop_last())
    } else {
        s
    }
}

/// `s` without its last component: everything after its last `/`.
pub open spec fn drop_name(s: Seq<char>) -> Seq<char>
    decreases s.len(),
{
    if s.len() > 0 && s.last() != '/' {
        drop_name(s.drop_last())
    } else {
        s
    }
}

/// The parent of a `/`-separated path, as the platform's path handling
/// gives it: the path without its last component, where `.` components
/// other than a leading one do not count; `None` for the root and for the
/// empty path; `/` for a name directly under the root; the empty path for a
/// single relative name.
pub open spec fn parent_spec(path: Seq<char>) -> Option<Seq<char>> {
    let t = trim_tail(path);
    if t.len() == 0 {
        None
    } else {
        let d = trim_tail(drop_name(t));
        if d.len() == 0 && path[0] == '/' {
            Some(seq!['/'])
        } else {
            Some(d)
        }
    }
}

/// The directory that a file manager opens to show `path`: `path` itself
/// when it is a directory, else its parent, else the root.
pub open spec fn containing_dir_spec(path: Seq<char>, is_dir: bool) -> Seq<char> {
    if is_dir {
        path
    } else {
        match parent_spec(path) {
            Some(d) => d,
            None => seq!['/'],
        }
    }
}

/// The length of `s` up to `n` without its trailing `/` characters and
/// non-leading `.` components.
fn trim_end(s: &str, n: usize) -> (e: usize)
    requires
        n <= s@.len(),
    ensures
        e <= n,
        s@.take(e as int) == trim_tail(s@.take(n as int)),
{
    let mut e = n;
    while e > 0 && (s.get_char(e - 1) == '/' || (e >= 2 && s.get_char(e - 1) == '.' && s.get_char(
        e - 2,
    ) == '/'))
        invariant
            e <= n <= s@.len(),
            trim_tail(s@.take(e as int)) == trim_tail(s@.take(n as int)),
        decreases e,
    {
        assert(s@.take(e as int).drop_last() =~= s@.take(e - 1));
        if e >= 2 {
            assert(s@.take(e as int)[e - 2] == s@[e - 2]);
        }
        e = e - 1;
    }
    if e > 0 {
        assert(s@.take(e as int).last() == s@[e - 1]);
    }
    if e >= 2 {
        assert(s@.take(e as int)[e - 2] == s@[e - 2]);
    }
    e
}

/// The length of `s` up to `n` without its last component.
fn name_start(s: &str, n: usize) -> (e: usize)
    requires
        n <= s@.len(),
    ensures
        e <= n,
        s@.take(e as int) == drop_name(s@.take(n as int)),
{
    let mut e = n;
    while e > 0 && s.get_char(e - 1) != '/'
        invariant
            e <= n <= s@.len(),
            drop_name(s@.take(e as int)) == drop_name(s@.take(n as int)),
        decreases e,
    {
        assert(s@.take(e as int).drop_last() =~= s@.take(e - 1));
        e = e - 1;
    }
    if e > 0 {
        assert(s@.take(e as int).last() == s@[e - 1]);
    }
    e
}

/// The directory to open in a file manager to show `path`, given whether
/// `path` is a directory.
pub fn containing_dir(path: &str, is_dir: bool) -> (r: String)
    ensures
        r@ == containing_dir_spec(path@, is_dir),
{
    if is_dir {
        return String::from_str(path);
    }
    let n = path.unicode_len();
    assert(path@.take(n as int) =~= path@);
    let t = trim_end(path, n);
    proof {
        reveal_strlit("/");
    }
    if t == 0 {
        return String::from_str("/");
    }
    let d0 = name_start(path, t);
    let d = trim_end(path, d0);
    assert(path@.take(t as int).take(d0 as int) =~= path@.take(d0 as int));
    if d == 0 && path.get_char(0) == '/' {
        String::from_str("/")
    } else {
        String::from_str(path.substring_char(0, d))
    }
}

/// The extended-length prefix `\\?\` that some spawn backends reject.
pub open spec fn extended_prefix() -> Seq<char> {
    seq!['\\', '\\', '?', '\\']
}

/// `s` without a leading extended-length prefix.
pub open spec fn clean_spec(s: Seq<char>) -> Seq<char> {
    if s.len() >= 4 && s.take(4) == extended_prefix() {
        s.skip(4)
    } else {
        s
    }
}

/// Normalises a path to the plain form that process spawning accepts.
pub fn clean_path(s: &str) -> (r: String)
    ensures
        r@ == clean_spec(s@),
{
    let n = s.unicode_len();
    if n >= 4 && s.get_char(0) == '\\' && s.get_char(1) == '\\' && s.get_char(2) == '?'
        && s.get_char(3) == '\\' {
        assert(s@.take(4) =~= extended_prefix());
        String::from_str(s.substring_char(4, n))
    } else {
        proof {
            if s@.len() >= 4 && s@.take(4) == extended_prefix() {
                assert(s@[0] == s@.take(4)[0]);
                assert(s@[1] == s@.take(4)[1]);
                assert(s@[2] == s@.take(4)[2]);
                assert(s@[3] == s@.take(4)[3]);
            }
        }
        String::from_str(s)
    }
}

/// The number of directory layouts probed under each search root.
pub const LAYOUT_COUNT: usize = 3;

/// The working directory of layout `i` under `root`, highest priority
/// first: `resources` then `server` under the root, `server` under the
/// root, then the root itself. Each component is joined on its own.
pub open spec fn layout_dir(root: Seq<char>, i: int, p: Platform) -> Seq<char> {
    if i == 0 {
        join_spec(join_spec(root, "resources"@, p), "server"@, p)
    } else if i == 1 {
        join_spec(root, "server"@, p)
    } else {
        root
    }
}

/// Builds the working directory of layout `i` under `root`.
pub fn layout_path(root: &str, i: usize, p: Platform) -> (r: String)
    requires
        i < LAYOUT_COUNT,
    ensures
        r@ == layout_dir(root@, i as int, p),
{
    if i == 0 {
        let nested = join(root, "resources", p);
        join(nested.as_str(), "server", p)
    } else if i == 1 {
        join(root, "server", p)
    } else {
        String::from_str(root)
    }
}

} // verus!
