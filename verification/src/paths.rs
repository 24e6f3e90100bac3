//! Paths of the files that the application keeps on disk. A path is held as
//! its bytes, as a Unix path is.
use vstd::prelude::*;
use vstd::slice::{slice_subrange, slice_to_vec};

verus! {

/// The path separator, `/`
pub const SEPARATOR: u8 = 0x2f;

/// `.`
pub const DOT: u8 = 0x2e;

/// `~`
pub const TILDE: u8 = 0x7e;

/// The bytes of an ASCII text.
pub open spec fn ascii_bytes(s: Seq<char>) -> Seq<u8> {
    s.map_values(|c: char| c as u8)
}

/// The bytes of an ASCII text.
fn ascii(s: &str) -> (bytes: &[u8])
    requires
        vstd::string::is_ascii(s),
    ensures
        bytes@ == ascii_bytes(s@),
{
    proof {
        broadcast use vstd::string::is_ascii_spec_bytes;
    }
    let bytes = s.as_bytes();
    assert(bytes@ =~= ascii_bytes(s@));
    bytes
}

/// What joining `path` onto `base` gives, as `std::path::Path::join` does it
/// on Unix: an absolute `path` replaces `base`; otherwise a separator is put
/// between the two unless `base` is empty or already ends in one.
pub open spec fn path_join(base: Seq<u8>, path: Seq<u8>) -> Seq<u8> {
    if path.len() > 0 && path[0] == SEPARATOR {
        path
    } else if base.len() > 0 && base.last() != SEPARATOR {
        base + seq![SEPARATOR] + path
    } else {
        base + path
    }
}

/// Append the bytes of `tail` to `v`.
fn append_bytes(v: &mut Vec<u8>, tail: &[u8])
    ensures
        final(v)@ == old(v)@ + tail@,
{
    let ghost start = v@;
    for i in 0..tail.len()
        invariant
            v@ == start + tail@.subrange(0, i as int),
    {
        v.push(tail[i]);
        assert(tail@.subrange(0, i + 1) =~= tail@.subrange(0, i as int).push(tail@[i as int]));
    }
    assert(tail@.subrange(0, tail@.len() as int) =~= tail@);
}

/// Join `path` onto `base` (see [`path_join`]).
pub fn join(base: &[u8], path: &[u8]) -> (joined: Vec<u8>)
    ensures
        joined@ == path_join(base@, path@),
{
    if path.len() > 0 && path[0] == SEPARATOR {
        return slice_to_vec(path);
    }
    let mut joined = slice_to_vec(base);
    if base.len() > 0 && base[base.len() - 1] != SEPARATOR {
        joined.push(SEPARATOR);
    }
    append_bytes(&mut joined, path);
    joined
}

/// The root data directory. All files that the application creates on the
/// system live here. The value is the directory's path.
#[derive(Debug)]
pub struct DataDirectory(Vec<u8>);

impl View for DataDirectory {
    type V = Seq<u8>;

    closed spec fn view(&self) -> Seq<u8> {
        self.0@
    }
}

/// Calls `dirs::data_dir`, the user's platform data directory, and gives the
/// path's bytes as `OsString::into_encoded_bytes` gives them (on Unix, the
/// path's own bytes). The result depends on the environment and the
/// platform, so nothing is stated of it.
#[verifier::external_body]
fn platform_data_dir() -> Option<Vec<u8>> {
    match dirs::data_dir() {
        Some(dir) => Some(dir.into_os_string().into_encoded_bytes()),
        None => None,
    }
}

/// Calls `dirs::home_dir`, the user's home directory, and gives the path's
/// bytes as `OsString::into_encoded_bytes` gives them (on Unix, the path's
/// own bytes). The result depends on the environment and the platform, so
/// nothing is stated of it.
#[verifier::external_body]
fn platform_home_dir() -> Option<Vec<u8>> {
    match dirs::home_dir() {
        Some(dir) => Some(dir.into_os_string().into_encoded_bytes()),
        None => None,
    }
}

/// What `String::from_utf8_lossy` gives for `bytes`: the text they encode,
/// with each invalid sequence replaced by U+FFFD.
pub uninterp spec fn lossy_text(bytes: Seq<u8>) -> Seq<char>;

/// Calls `String::from_utf8_lossy`. Valid UTF-8 is decoded as it is; invalid
/// sequences are replaced, which is left to the name [`lossy_text`].
#[verifier::external_body]
fn text_of(bytes: &[u8]) -> (text: String)
    ensures
        text@ == lossy_text(bytes@),
        vstd::utf8::valid_utf8(bytes@) ==> text@ == vstd::utf8::decode_utf8(bytes@),
{
    String::from_utf8_lossy(bytes).into_owned()
}

impl DataDirectory {
    /// A data directory at the given path.
    pub fn new(path: Vec<u8>) -> (dir: Self)
        ensures
            dir@ == path@,
    {
        DataDirectory(path)
    }

    /// The directory's path, as the directory is displayed: invalid UTF-8 is
    /// shown with replacement characters.
    pub fn display(&self) -> (text: String)
        ensures
            text@ == lossy_text(self@),
            vstd::utf8::valid_utf8(self@) ==> text@ == vstd::utf8::decode_utf8(self@),
    {
        text_of(self.0.as_slice())
    }

    /// The data directory used in release builds: `slumber` under the
    /// platform's data directory. `None` where the platform has no data
    /// directory.
    pub fn get_directory() -> (path: Option<Vec<u8>>)
        ensures
            path matches Some(p) ==> exists|data: Seq<u8>| p@ == path_join(data, ascii_bytes("slumber"@)),
    {
        match platform_data_dir() {
            Some(data) => {
                let path = Self::directory_under(data.as_slice());
                assert(path@ == path_join(data@, ascii_bytes("slumber"@)));
                Some(path)
            },
            None => None,
        }
    }

    /// The release data directory, given the platform's data directory.
    pub fn directory_under(data_dir: &[u8]) -> (path: Vec<u8>)
        ensures
            path@ == path_join(data_dir@, ascii_bytes("slumber"@)),
    {
        proof {
            reveal_strlit("slumber");
        }
        join(data_dir, ascii("slumber"))
    }

    /// The data directory used in development builds, given the root of the
    /// source repository: `data/` under it.
    pub fn repo_directory(repo_root: &[u8]) -> (path: Vec<u8>)
        ensures
            path@ == path_join(repo_root@, ascii_bytes("data/"@)),
    {
        proof {
            reveal_strlit("data/");
        }
        join(repo_root, ascii("data/"))
    }

    /// Build a path to a file in this directory
    pub fn file(&self, path: &[u8]) -> (file: Vec<u8>)
        ensures
            file@ == path_join(self@, path@),
    {
        join(self.0.as_slice(), path)
    }

    /// Build a path to the log file
    pub fn log_file(&self) -> (file: Vec<u8>)
        ensures
            file@ == path_join(self@, ascii_bytes("slumber.log"@)),
    {
        proof {
            reveal_strlit("slumber.log");
        }
        self.file(ascii("slumber.log"))
    }

    /// Build a path to the backup log file
    pub fn log_file_old(&self) -> (file: Vec<u8>)
        ensures
            file@ == path_join(self@, ascii_bytes("slumber.log.old"@)),
    {
        proof {
            reveal_strlit("slumber.log.old");
        }
        self.file(ascii("slumber.log.old"))
    }
}

/// `s` without its leading separators and `.` components, as
/// `std::path::Components` skips them at the front of what follows a
/// component.
pub open spec fn trim_leading(s: Seq<u8>) -> Seq<u8>
    decreases s.len(),
{
    if s.len() == 0 {
        s
    } else if s[0] == SEPARATOR || (s[0] == DOT && (s.len() == 1 || s[1] == SEPARATOR)) {
        trim_leading(s.drop_first())
    } else {
        s
    }
}

/// `s` without its trailing separators and `.` components.
pub open spec fn trim_trailing(s: Seq<u8>) -> Seq<u8>
    decreases s.len(),
{
    if s.len() == 0 {
        s
    } else if s.last() == SEPARATOR || (s.last() == DOT && (s.len() == 1 || s[s.len() - 2]
        == SEPARATOR)) {
        trim_trailing(s.drop_last())
    } else {
        s
    }
}

/// Whether the first component of `path` is `~`: the `~` is the whole path
/// or is followed by a separator.
pub open spec fn is_home_relative(path: Seq<u8>) -> bool {
    path.len() > 0 && path[0] == TILDE && (path.len() == 1 || path[1] == SEPARATOR)
}

/// What is left of a home-relative path after its leading `~` component,
/// as `Path::strip_prefix("~")` gives it.
pub open spec fn home_relative_rest(path: Seq<u8>) -> Seq<u8> {
    trim_trailing(trim_leading(path.drop_first()))
}

/// `path` with a leading `~` component replaced by `home`; unchanged where
/// the path does not start with that component or there is no home.
pub open spec fn expanded(path: Seq<u8>, home: Option<Seq<u8>>) -> Seq<u8> {
    match home {
        Some(h) if is_home_relative(path) => path_join(h, home_relative_rest(path)),
        _ => path,
    }
}

/// The bytes of an optional path.
pub open spec fn bytes_of(path: Option<&[u8]>) -> Option<Seq<u8>> {
    match path {
        Some(p) => Some(p@),
        None => None,
    }
}

/// The part of `path` after a leading `~` component, or `None` where the
/// first component of `path` is not `~`.
pub fn strip_home_prefix(path: &[u8]) -> (rest: Option<&[u8]>)
    ensures
        rest is Some <==> is_home_relative(path@),
        rest matches Some(r) ==> r@ == home_relative_rest(path@),
{
    let n = path.len();
    if n == 0 || path[0] != TILDE || (n > 1 && path[1] != SEPARATOR) {
        return None;
    }
    let ghost s = path@;
    let mut start: usize = 1;
    assert(s.subrange(1, n as int) =~= s.drop_first());
    while start < n && (path[start] == SEPARATOR || (path[start] == DOT && (start + 1 == n
        || path[start + 1] == SEPARATOR)))
        invariant
            n == s.len(),
            s == path@,
            1 <= start <= n,
            trim_leading(s.drop_first()) == trim_leading(s.subrange(start as int, n as int)),
        decreases n - start,
    {
        assert(s.subrange(start as int, n as int).drop_first() =~= s.subrange(
            start + 1,
            n as int,
        ));
        start = start + 1;
    }
    assert(trim_leading(s.subrange(start as int, n as int)) == s.subrange(start as int, n as int));
    let mut end: usize = n;
    while end > start && (path[end - 1] == SEPARATOR || (path[end - 1] == DOT && (end - 1
        == start || path[end - 2] == SEPARATOR)))
        invariant
            n == s.len(),
            s == path@,
            1 <= start <= end <= n,
            home_relative_rest(s) == trim_trailing(s.subrange(start as int, end as int)),
        decreases end - start,
    {
        assert(s.subrange(start as int, end as int).drop_last() =~= s.subrange(
            start as int,
            end - 1,
        ));
        end = end - 1;
    }
    assert(trim_trailing(s.subrange(start as int, end as int)) == s.subrange(
        start as int,
        end as int,
    ));
    Some(slice_subrange(path, start, end))
}

/// Expand a leading `~` in `path` into the given home directory. Only expand
/// if the `~` is the sole component, or trailed by a slash: `~test.txt` is
/// not expanded. Without a home directory the path is kept.
pub fn expand_home_with(path: &[u8], home: Option<&[u8]>) -> (result: Vec<u8>)
    ensures
        result@ == expanded(path@, bytes_of(home)),
{
    match strip_home_prefix(path) {
        Some(rest) => match home {
            Some(h) => join(h, rest),
            None => slice_to_vec(path),
        },
        None => slice_to_vec(path),
    }
}

/// Expand a leading `~` in a path into the user's home directory. Only expand
/// if the `~` is the sole component, or trailed by a slash. In other words,
/// `~test.txt` will *not* be expanded.
pub fn expand_home(path: &[u8]) -> (result: Vec<u8>)
    ensures
        !is_home_relative(path@) ==> result@ == path@,
        exists|home: Option<Seq<u8>>| result@ == expanded(path@, home),
{
    if strip_home_prefix(path).is_none() {
        assert(path@ == expanded(path@, None));
        return slice_to_vec(path);
    }
    match platform_home_dir() {
        Some(home) => {
            let result = expand_home_with(path, Some(home.as_slice()));
            assert(result@ == expanded(path@, Some(home@)));
            result
        },
        None => {
            assert(path@ == expanded(path@, None));
            slice_to_vec(path)
        },
    }
}

/// Whether `c` is white space, as `char::is_whitespace` has it: the
/// characters with the Unicode `White_Space` property.
pub open spec fn is_white_space(c: char) -> bool {
    let u = c as u32;
    ||| 0x09 <= u <= 0x0d
    ||| u == 0x20
    ||| u == 0x85
    ||| u == 0xa0
    ||| u == 0x1680
    ||| 0x2000 <= u <= 0x200a
    ||| u == 0x2028
    ||| u == 0x2029
    ||| u == 0x202f
    ||| u == 0x205f
    ||| u == 0x3000
}

/// Whether `c` is white space (see [`is_white_space`]).
fn white_space(c: char) -> (white: bool)
    ensures
        white == is_white_space(c),
{
    let u = c as u32;
    (0x09 <= u && u <= 0x0d) || u == 0x20 || u == 0x85 || u == 0xa0 || u == 0x1680 || (0x2000 <= u
        && u <= 0x200a) || u == 0x2028 || u == 0x2029 || u == 0x202f || u == 0x205f || u == 0x3000
}

/// `s` without leading white space.
pub open spec fn trim_white_start(s: Seq<char>) -> Seq<char>
    decreases s.len(),
{
    if s.len() > 0 && is_white_space(s[0]) {
        trim_white_start(s.drop_first())
    } else {
        s
    }
}

/// `s` without trailing white space.
pub open spec fn trim_white_end(s: Seq<char>) -> Seq<char>
    decreases s.len(),
{
    if s.len() > 0 && is_white_space(s.last()) {
        trim_white_end(s.drop_last())
    } else {
        s
    }
}

/// The repository root that `git rev-parse --show-toplevel` printed: its
/// output without the white space around it, as `str::trim` gives it.
pub fn repo_root_from_git_output(output: &str) -> (root: &str)
    ensures
        root@ == trim_white_end(trim_white_start(output@)),
{
    let n = output.unicode_len();
    let ghost s = output@;
    let mut start: usize = 0;
    assert(s.subrange(0, n as int) =~= s);
    while start < n && white_space(output.get_char(start))
        invariant
            n == s.len(),
            s == output@,
            start <= n,
            trim_white_start(s) == trim_white_start(s.subrange(start as int, n as int)),
        decreases n - start,
    {
        assert(s.subrange(start as int, n as int).drop_first() =~= s.subrange(
            start + 1,
            n as int,
        ));
        start = start + 1;
    }
    let mut end: usize = n;
    while end > start && white_space(output.get_char(end - 1))
        invariant
            n == s.len(),
            s == output@,
            start <= end <= n,
            trim_white_end(trim_white_start(s)) == trim_white_end(
                s.subrange(start as int, end as int),
            ),
        decreases end - start,
    {
        assert(s.subrange(start as int, end as int).drop_last() =~= s.subrange(
            start as int,
            end - 1,
        ));
        end = end - 1;
    }
    output.substring_char(start, end)
}

/// Calls `std::str::from_utf8`: the text that `bytes` encode, or `None`
/// where they are not valid UTF-8.
#[verifier::external_body]
fn utf8_text(bytes: &[u8]) -> (text: Option<&str>)
    ensures
        text is Some <==> vstd::utf8::valid_utf8(bytes@),
        text matches Some(t) ==> t@ == vstd::utf8::decode_utf8(bytes@),
{
    match std::str::from_utf8(bytes) {
        Ok(text) => Some(text),
        Err(_) => None,
    }
}

/// The repository root from the bytes that `git rev-parse --show-toplevel`
/// printed: their text without the white space around it, or the empty
/// path where they are not UTF-8.
pub fn repo_root_from_git_stdout(stdout: &[u8]) -> (root: Vec<u8>)
    ensures
        vstd::utf8::valid_utf8(stdout@) ==> root@ == vstd::utf8::encode_utf8(
            trim_white_end(trim_white_start(vstd::utf8::decode_utf8(stdout@))),
        ),
        !vstd::utf8::valid_utf8(stdout@) ==> root@ == Seq::<u8>::empty(),
{
    match utf8_text(stdout) {
        Some(text) => slice_to_vec(repo_root_from_git_output(text).as_bytes()),
        None => Vec::new(),
    }
}

/// A file named by a relative path lies in the directory: the joined path
/// starts with the directory's path, followed by a separator where the
/// directory's path does not end in one.
pub proof fn relative_file_is_in_directory(dir: Seq<u8>, name: Seq<u8>)
    requires
        !(name.len() > 0 && name[0] == SEPARATOR),
    ensures
        path_join(dir, name).subrange(0, dir.len() as int) == dir,
        path_join(dir, name).len() >= dir.len() + name.len(),
        dir.len() > 0 ==> path_join(dir, name)[dir.len() - 1] == SEPARATOR || path_join(
            dir,
            name,
        )[dir.len() as int] == SEPARATOR,
        path_join(dir, name).subrange(
            path_join(dir, name).len() - name.len(),
            path_join(dir, name).len() as int,
        ) == name,
{
    let j = path_join(dir, name);
    if dir.len() > 0 && dir.last() != SEPARATOR {
        assert(j =~= dir + seq![SEPARATOR] + name);
        assert(j.subrange(0, dir.len() as int) =~= dir);
        assert(j.subrange(j.len() - name.len(), j.len() as int) =~= name);
    } else {
        assert(j =~= dir + name);
        assert(j.subrange(0, dir.len() as int) =~= dir);
        assert(j.subrange(j.len() - name.len(), j.len() as int) =~= name);
    }
}


/// What trimming leading separators leaves does not start with one.
proof fn trim_leading_starts_clean(s: Seq<u8>)
    ensures
        trim_leading(s).len() > 0 ==> trim_leading(s)[0] != SEPARATOR,
    decreases s.len(),
{
    if s.len() > 0 && (s[0] == SEPARATOR || (s[0] == DOT && (s.len() == 1 || s[1] == SEPARATOR))) {
        trim_leading_starts_clean(s.drop_first());
    }
}

/// Trimming at the end leaves a prefix.
proof fn trim_trailing_is_prefix(s: Seq<u8>)
    ensures
        trim_trailing(s).len() <= s.len(),
        trim_trailing(s) == s.subrange(0, trim_trailing(s).len() as int),
    decreases s.len(),
{
    if s.len() > 0 && (s.last() == SEPARATOR || (s.last() == DOT && (s.len() == 1 || s[s.len()
        - 2] == SEPARATOR))) {
        trim_trailing_is_prefix(s.drop_last());
        assert(s.drop_last().subrange(0, trim_trailing(s).len() as int) =~= s.subrange(
            0,
            trim_trailing(s).len() as int,
        ));
    } else {
        assert(s.subrange(0, s.len() as int) =~= s);
    }
}

/// Expanding a path whose first component is `~` with a home directory puts
/// the rest of the path under the home: the result starts with the home's
/// path, followed by a separator where the home does not end in one, and
/// ends with the rest of the path, which is never absolute.
pub proof fn expansion_is_under_home(path: Seq<u8>, home: Seq<u8>)
    requires
        is_home_relative(path),
    ensures
        !(home_relative_rest(path).len() > 0 && home_relative_rest(path)[0] == SEPARATOR),
        expanded(path, Some(home)) == path_join(home, home_relative_rest(path)),
        expanded(path, Some(home)).subrange(0, home.len() as int) == home,
        home.len() > 0 ==> expanded(path, Some(home))[home.len() - 1] == SEPARATOR || expanded(
            path,
            Some(home),
        )[home.len() as int] == SEPARATOR,
        expanded(path, Some(home)).subrange(
            expanded(path, Some(home)).len() - home_relative_rest(path).len(),
            expanded(path, Some(home)).len() as int,
        ) == home_relative_rest(path),
{
    let lead = trim_leading(path.drop_first());
    trim_leading_starts_clean(path.drop_first());
    trim_trailing_is_prefix(lead);
    let rest = home_relative_rest(path);
    if rest.len() > 0 {
        assert(rest[0] == lead[0]);
    }
    relative_file_is_in_directory(home, rest);
}

} // verus!
