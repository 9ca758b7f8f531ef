//! Config path resolution.
//!
//! Paths are kept as strings, joined with the platform's separator.
//! Platform discovery of the config directory happens outside this crate
//! and hands its result to [`Paths::with_root`].

use vstd::prelude::*;

use crate::text::chars_of;

verus! {

/// File name of the host registry inside the config directory.
pub const HOSTS_FILE_NAME: &'static str = "hosts.toml";

/// `std::path::MAIN_SEPARATOR`, the platform's separator of path
/// components, which std documents as `/` on Unix and `\` on Windows.
#[verifier::external_body]
pub(crate) fn main_separator() -> (c: char)
    ensures
        c == '/' || c == '\\',
{
    std::path::MAIN_SEPARATOR
}

/// A platform's main separator of path components.
#[derive(Clone, Copy, PartialEq, Eq, Structural, Debug)]
pub enum Separator {
    /// `/`, as on Unix.
    Slash,
    /// `\\`, as on Windows.
    Backslash,
}

impl Separator {
    /// The separator as a character.
    pub open spec fn spec_char(self) -> char {
        match self {
            Separator::Slash => '/',
            Separator::Backslash => '\\',
        }
    }

    /// The separator as a character.
    pub fn as_char(self) -> (c: char)
        ensures
            c == self.spec_char(),
    {
        match self {
            Separator::Slash => '/',
            Separator::Backslash => '\\',
        }
    }
}

/// The separator of this platform, as [`main_separator`] gives it.
pub(crate) fn platform_separator() -> Separator {
    if main_separator() == '/' {
        Separator::Slash
    } else {
        Separator::Backslash
    }
}

/// Whether `c` separates path components on a platform whose main
/// separator is `sep`: `/` does everywhere, and so does `sep`.
pub open spec fn is_separator(c: char, sep: char) -> bool {
    c == '/' || c == sep
}

/// Whether `c` is an ASCII letter.
pub open spec fn is_ascii_letter(c: char) -> bool {
    ('a' <= c && c <= 'z') || ('A' <= c && c <= 'Z')
}

/// Whether `path` is a bare drive, a letter and a colon such as `C:`, on
/// a platform whose main separator is `\`, where such a path is a drive
/// prefix.
pub open spec fn is_bare_drive(path: Seq<char>, sep: char) -> bool {
    sep == '\\' && path.len() == 2 && is_ascii_letter(path[0]) && path[1] == ':'
}

/// Whether `path` is the root of a drive, such as `C:\`, on a platform
/// whose main separator is `\`.
pub open spec fn is_drive_root(path: Seq<char>, sep: char) -> bool {
    sep == '\\' && path.len() == 3 && is_ascii_letter(path[0]) && path[1] == ':' && is_separator(
        path[2],
        sep,
    )
}

/// `dir` joined with the relative name `name`, as `PathBuf::push` does it
/// on a platform whose main separator is `sep`: that separator goes
/// between them unless `dir` is empty, already ends with a separator, or
/// is a bare drive (`C:` and `hosts.toml` give `C:hosts.toml`).
pub open spec fn join_path(dir: Seq<char>, name: Seq<char>, sep: char) -> Seq<char> {
    if dir.len() > 0 && !is_separator(dir.last(), sep) && !is_bare_drive(dir, sep) {
        dir + seq![sep] + name
    } else {
        dir + name
    }
}

/// Whether the first `n` characters of `cs` form a bare drive.
fn bare_drive_at(cs: &Vec<char>, n: usize, sep: char) -> (r: bool)
    requires
        n <= cs@.len(),
    ensures
        r == is_bare_drive(cs@.take(n as int), sep),
{
    let letter = n == 2 && (('a' <= cs[0] && cs[0] <= 'z') || ('A' <= cs[0] && cs[0] <= 'Z'));
    sep == '\\' && letter && cs[1] == ':'
}

/// Whether the first `n` characters of `cs` form the root of a drive.
fn drive_root_at(cs: &Vec<char>, n: usize, sep: char) -> (r: bool)
    requires
        n <= cs@.len(),
    ensures
        r == is_drive_root(cs@.take(n as int), sep),
{
    let letter = n == 3 && (('a' <= cs[0] && cs[0] <= 'z') || ('A' <= cs[0] && cs[0] <= 'Z'));
    sep == '\\' && letter && cs[1] == ':' && (cs[2] == '/' || cs[2] == sep)
}

/// `dir` joined with `name` by [`join_path`].
pub fn join(dir: &str, name: &str, separator: Separator) -> (r: String)
    ensures
        r@ == join_path(dir@, name@, separator.spec_char()),
{
    let sep = separator.as_char();
    let cs = chars_of(dir);
    let n = cs.len();
    assert(cs@.take(n as int) =~= cs@);
    let mut r = dir.to_owned();
    if n > 0 && !(cs[n - 1] == '/' || cs[n - 1] == sep) && !bare_drive_at(&cs, n, sep) {
        proof {
            reveal_strlit("/");
            reveal_strlit("\\");
        }
        if sep == '/' {
            r.append("/");
        } else {
            r.append("\\");
        }
    }
    r.append(name);
    r
}

/// `path` without the trailing separators and `.` components that
/// `Path::file_name` and `Path::parent` pass over. A root (`/`, or `C:\`
/// where the separator is `\`) and a leading `.` stay.
pub open spec fn trim_tail(path: Seq<char>, sep: char) -> Seq<char>
    decreases path.len(),
{
    let n = path.len();
    if n >= 2 && is_separator(path[n - 1], sep) && !is_drive_root(path, sep) {
        trim_tail(path.drop_last(), sep)
    } else if n >= 2 && path[n - 1] == '.' && is_separator(path[n - 2], sep) {
        trim_tail(path.drop_last(), sep)
    } else {
        path
    }
}

/// The index of the last separator in `s`, or -1 when there is none.
pub open spec fn last_separator(s: Seq<char>, sep: char) -> int
    decreases s.len(),
{
    if s.len() == 0 {
        -1
    } else if is_separator(s.last(), sep) {
        s.len() - 1
    } else {
        last_separator(s.drop_last(), sep)
    }
}

/// The temporary file that an atomic write of `path` goes through, as
/// `Path::with_file_name` places it: when the path, its trailing
/// separators and `.` components passed over, ends in a plain name (not
/// `.`, `..` or a bare drive), that name with `.tmp` appended replaces it
/// under the parent; otherwise `.hosts.toml.tmp.tmp` (the fallback name
/// with `.tmp` appended) is pushed onto the path.
pub open spec fn tmp_sibling_path(path: Seq<char>, sep: char) -> Seq<char> {
    let s = trim_tail(path, sep);
    let i = last_separator(s, sep);
    let name = s.subrange(i + 1, s.len() as int);
    if name.len() > 0 && name != seq!['.'] && name != seq!['.', '.'] && !is_bare_drive(s, sep) {
        join_path(trim_tail(s.subrange(0, i + 1), sep), name + ".tmp"@, sep)
    } else {
        join_path(path, ".hosts.toml.tmp.tmp"@, sep)
    }
}

/// The length of `trim_tail` of the first `n` characters of `cs`.
fn trimmed_len(cs: &Vec<char>, n: usize, separator: Separator) -> (hi: usize)
    requires
        n <= cs@.len(),
    ensures
        hi <= n,
        trim_tail(cs@.take(n as int), separator.spec_char()) == cs@.take(hi as int),
{
    let sep = separator.as_char();
    let mut hi = n;
    loop
        invariant
            hi <= n <= cs@.len(),
            sep == separator.spec_char(),
            trim_tail(cs@.take(n as int), sep) == trim_tail(cs@.take(hi as int), sep),
        decreases hi,
    {
        let t = Ghost(cs@.take(hi as int));
        if hi >= 2 {
            assert(t@[hi - 1] == cs@[hi - 1]);
            assert(t@[hi - 2] == cs@[hi - 2]);
        }
        let sep_end = hi >= 2 && (cs[hi - 1] == '/' || cs[hi - 1] == sep) && !drive_root_at(
            cs,
            hi,
            sep,
        );
        let dot_end = hi >= 2 && cs[hi - 1] == '.' && (cs[hi - 2] == '/' || cs[hi - 2] == sep);
        if sep_end || dot_end {
            assert(t@.drop_last() =~= cs@.take(hi - 1));
            hi = hi - 1;
        } else {
            return hi;
        }
    }
}

/// Where the last component of the first `n` characters of `cs` starts:
/// one past the last separator, or 0.
fn name_start(cs: &Vec<char>, n: usize, separator: Separator) -> (i: usize)
    requires
        n <= cs@.len(),
    ensures
        i <= n,
        i == last_separator(cs@.take(n as int), separator.spec_char()) + 1,
{
    let sep = separator.as_char();
    let mut i = n;
    while i > 0 && !(cs[i - 1] == '/' || cs[i - 1] == sep)
        invariant
            i <= n <= cs@.len(),
            sep == separator.spec_char(),
            last_separator(cs@.take(n as int), sep) == last_separator(cs@.take(i as int), sep),
        decreases i,
    {
        assert(cs@.take(i as int).drop_last() =~= cs@.take(i - 1));
        i = i - 1;
    }
    if i > 0 {
        assert(cs@.take(i as int).last() == cs@[i - 1]);
    }
    i
}

/// The temporary file beside `path`, by [`tmp_sibling_path`].
pub fn tmp_sibling(path: &str, separator: Separator) -> (r: String)
    ensures
        r@ == tmp_sibling_path(path@, separator.spec_char()),
{
    let sep = separator.as_char();
    let cs = chars_of(path);
    let n = cs.len();
    assert(cs@.take(n as int) =~= cs@);
    let hi = trimmed_len(&cs, n, separator);
    let i = name_start(&cs, hi, separator);
    let ghost s = cs@.take(hi as int);
    let ghost name = s.subrange(i as int, hi as int);
    assert(name =~= cs@.subrange(i as int, hi as int));
    let one_dot = hi - i == 1 && cs[i] == '.';
    let two_dots = hi - i == 2 && cs[i] == '.' && cs[i + 1] == '.';
    if hi - i == 1 {
        assert(name == seq!['.'] <==> name[0] == '.') by {
            if name[0] == '.' {
                assert(name =~= seq!['.']);
            }
        }
    }
    if hi - i == 2 {
        assert(name == seq!['.', '.'] <==> (name[0] == '.' && name[1] == '.')) by {
            if name[0] == '.' && name[1] == '.' {
                assert(name =~= seq!['.', '.']);
            }
        }
    }
    let plain = i < hi && !one_dot && !two_dots && !bare_drive_at(&cs, hi, sep);
    if plain {
        let p_hi = trimmed_len(&cs, i, separator);
        assert(s.subrange(0, i as int) =~= cs@.take(i as int));
        let prefix = path.substring_char(0, p_hi);
        assert(prefix@ =~= cs@.take(p_hi as int));
        let stem = path.substring_char(i, hi);
        let mut file = stem.to_owned();
        file.append(".tmp");
        join(prefix, file.as_str(), separator)
    } else {
        join(path, ".hosts.toml.tmp.tmp", separator)
    }
}

/// Resolved on-disk paths for the auth layer.
#[derive(Debug, Clone)]
pub struct Paths {
    config_dir: String,
    separator: Separator,
}

impl Paths {
    /// The config directory, as characters.
    pub closed spec fn spec_config_dir(&self) -> Seq<char> {
        self.config_dir@
    }

    /// The platform's main path separator that paths are joined with.
    pub closed spec fn spec_separator(&self) -> char {
        self.separator.spec_char()
    }

    /// Treats `root` as the platform config directory.
    pub fn with_root(root: &str) -> (r: Self)
        ensures
            r.spec_config_dir() == root@,
            r.spec_separator() == '/' || r.spec_separator() == '\\',
    {
        Paths { config_dir: root.to_owned(), separator: platform_separator() }
    }

    /// The directory holding `hosts.toml` and any future config files.
    pub fn config_dir(&self) -> (r: &str)
        ensures
            r@ == self.spec_config_dir(),
    {
        self.config_dir.as_str()
    }

    /// Full path to the host registry file.
    pub fn hosts_file(&self) -> (r: String)
        ensures
            r@ == join_path(self.spec_config_dir(), HOSTS_FILE_NAME@, self.spec_separator()),
    {
        join(self.config_dir.as_str(), HOSTS_FILE_NAME, self.separator)
    }
}

} // verus!
