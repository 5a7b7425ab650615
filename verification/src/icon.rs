//! Locating XDG icons for the logout overlay.

use vstd::prelude::*;

verus! {

/// The position of the last `b` in `s`, or -1 where there is none.
pub open spec fn last_index(s: Seq<u8>, b: u8) -> int
    decreases s.len(),
{
    if s.len() == 0 {
        -1
    } else if s.last() == b {
        s.len() - 1
    } else {
        last_index(s.drop_last(), b)
    }
}

/// A last position lies within the sequence and holds what was sought.
pub proof fn last_index_bounds(s: Seq<u8>, b: u8)
    ensures
        -1 <= last_index(s, b) < s.len(),
        last_index(s, b) >= 0 ==> s[last_index(s, b)] == b,
    decreases s.len(),
{
    if s.len() > 0 && s.last() != b {
        last_index_bounds(s.drop_last(), b);
    }
}

/// The last component of a path (its bytes, components split at `/`) that
/// is neither empty nor `.`, as `Path::components` leaves them.
pub open spec fn final_component(path: Seq<u8>) -> Option<Seq<u8>>
    decreases path.len(),
{
    let k = last_index(path, 0x2f);
    proof {
        last_index_bounds(path, 0x2f);
    }
    let seg = path.subrange(k + 1, path.len() as int);
    if seg.len() == 0 || seg == seq![0x2eu8] {
        if k < 0 {
            None
        } else {
            final_component(path.take(k))
        }
    } else {
        Some(seg)
    }
}

/// What `std::path::Path::file_name` gives: the final component, none where
/// the path ends in `..`.
pub open spec fn file_name(path: Seq<u8>) -> Option<Seq<u8>> {
    match final_component(path) {
        Some(c) => if c == seq![0x2eu8, 0x2eu8] {
            None
        } else {
            Some(c)
        },
        None => None,
    }
}

/// What `std::path::Path::extension` gives: what follows the last `.` of
/// the file name, none where the file name has no `.` or only a leading one.
pub open spec fn path_extension(path: Seq<u8>) -> Option<Seq<u8>> {
    match file_name(path) {
        Some(f) => {
            let d = last_index(f, 0x2e);
            if d <= 0 {
                None
            } else {
                Some(f.subrange(d + 1, f.len() as int))
            }
        },
        None => None,
    }
}

/// A path names an SVG file when its extension is exactly `svg`.
pub open spec fn is_svg_path(path: Seq<u8>) -> bool {
    path_extension(path) == Some(seq![0x73u8, 0x76u8, 0x67u8])
}

/// The last position before `end` of `b` in `s`.
fn last_index_before(s: &[u8], end: usize, b: u8) -> (i: Option<usize>)
    requires
        end <= s@.len(),
    ensures
        match i {
            Some(i) => i == last_index(s@.take(end as int), b),
            None => last_index(s@.take(end as int), b) == -1,
        },
{
    let mut i = end;
    while i > 0
        invariant
            i <= end <= s@.len(),
            last_index(s@.take(end as int), b) == last_index(s@.take(i as int), b),
        decreases i,
    {
        assert(s@.take(i as int).drop_last() =~= s@.take(i - 1));
        assert(s@.take(i as int).last() == s@[i - 1]);
        if s[i - 1] == b {
            return Some(i - 1);
        }
        i = i - 1;
    }
    None
}

/// Where in `path` its final component lies.
fn final_component_range(path: &[u8]) -> (r: Option<(usize, usize)>)
    ensures
        match r {
            Some((a, b)) => a <= b <= path@.len() && final_component(path@) == Some(
                path@.subrange(a as int, b as int),
            ),
            None => final_component(path@) is None,
        },
{
    let mut end = path.len();
    assert(path@.take(end as int) =~= path@);
    loop
        invariant
            end <= path@.len(),
            final_component(path@) == final_component(path@.take(end as int)),
        decreases end,
    {
        let ghost p = path@.take(end as int);
        proof {
            last_index_bounds(p, 0x2f);
        }
        let k = last_index_before(path, end, 0x2f);
        let start = match k {
            Some(k) => k + 1,
            None => 0,
        };
        assert(p.subrange(start as int, end as int) =~= path@.subrange(start as int, end as int));
        assert(start <= end);
        let is_dot = end - start == 1 && path[start] == 0x2e;
        assert(is_dot <==> path@.subrange(start as int, end as int) == seq![0x2eu8]) by {
            if end == start + 1 {
                assert(path@.subrange(start as int, end as int)[0] == path@[start as int]);
                if path@[start as int] == 0x2e {
                    assert(path@.subrange(start as int, end as int) =~= seq![0x2eu8]);
                }
            }
        }
        if start == end || is_dot {
            match k {
                None => return None,
                Some(k) => {
                    assert(p.take(k as int) =~= path@.take(k as int));
                    end = k;
                },
            }
        } else {
            return Some((start, end));
        }
    }
}

/// Whether `path[a..b]` is exactly `word`.
fn piece_is(path: &[u8], a: usize, b: usize, word: &[u8]) -> (r: bool)
    requires
        a <= b <= path@.len(),
    ensures
        r == (path@.subrange(a as int, b as int) == word@),
{
    if b - a != word.len() {
        return false;
    }
    let mut i: usize = 0;
    while i < word.len()
        invariant
            a <= b <= path@.len(),
            b - a == word@.len(),
            i <= word@.len(),
            forall|j: int| 0 <= j < i ==> path@[a + j] == word@[j],
        decreases word.len() - i,
    {
        if path[a + i] != word[i] {
            assert(path@.subrange(a as int, b as int)[i as int] != word@[i as int]);
            return false;
        }
        i = i + 1;
    }
    assert(path@.subrange(a as int, b as int) =~= word@);
    true
}

/// Where in `path` its extension lies.
fn extension_range(path: &[u8]) -> (r: Option<(usize, usize)>)
    ensures
        match r {
            Some((a, b)) => a <= b <= path@.len() && path_extension(path@) == Some(
                path@.subrange(a as int, b as int),
            ),
            None => path_extension(path@) is None,
        },
{
    let (a, b) = match final_component_range(path) {
        None => return None,
        Some(r) => r,
    };
    let ghost f = path@.subrange(a as int, b as int);
    if piece_is(path, a, b, &[0x2e, 0x2e]) {
        assert(seq![0x2eu8, 0x2eu8] =~= [0x2eu8, 0x2eu8]@);
        return None;
    }
    assert(seq![0x2eu8, 0x2eu8] =~= [0x2eu8, 0x2eu8]@);
    assert(file_name(path@) == Some(f));
    let d = last_index_before(path, b, 0x2e);
    proof {
        last_index_bounds(path@.take(b as int), 0x2e);
        lemma_last_index_of_piece(path@, a as int, b as int, 0x2e);
    }
    match d {
        Some(d) => {
            if d <= a {
                None
            } else {
                assert(f.subrange(d - a + 1, f.len() as int) =~= path@.subrange(d + 1, b as int));
                Some((d + 1, b))
            }
        },
        None => None,
    }
}

/// The last position of `x` in a piece `s[a..b]`, measured from `a`, is the
/// last position of `x` in `s[..b]` less `a`, where that is at or after `a`.
proof fn lemma_last_index_of_piece(s: Seq<u8>, a: int, b: int, x: u8)
    requires
        0 <= a <= b <= s.len(),
    ensures
        last_index(s.take(b), x) >= a ==> last_index(s.subrange(a, b), x) == last_index(
            s.take(b),
            x,
        ) - a,
        last_index(s.take(b), x) < a ==> last_index(s.subrange(a, b), x) == -1,
    decreases b - a,
{
    if b > a {
        assert(s.take(b).drop_last() =~= s.take(b - 1));
        assert(s.subrange(a, b).drop_last() =~= s.subrange(a, b - 1));
        assert(s.take(b).last() == s[b - 1]);
        assert(s.subrange(a, b).last() == s[b - 1]);
        lemma_last_index_of_piece(s, a, b - 1, x);
        last_index_bounds(s.take(b - 1), x);
    } else {
        assert(s.subrange(a, b).len() == 0);
        last_index_bounds(s.take(b), x);
    }
}

/// The extension of a path, as `std::path::Path::extension` gives it.
pub fn extension(path: &[u8]) -> (ext: Option<Vec<u8>>)
    ensures
        match ext {
            Some(e) => path_extension(path@) == Some(e@),
            None => path_extension(path@) is None,
        },
{
    match extension_range(path) {
        None => None,
        Some((a, b)) => {
            let mut e: Vec<u8> = Vec::new();
            let mut i = a;
            while i < b
                invariant
                    a <= i <= b <= path@.len(),
                    e@ == path@.subrange(a as int, i as int),
                decreases b - i,
            {
                e.push(path[i]);
                assert(path@.subrange(a as int, i + 1) =~= path@.subrange(a as int, i as int).push(
                    path@[i as int],
                ));
                i = i + 1;
            }
            Some(e)
        },
    }
}

/// Reads the user's configured icon theme with
/// `linicon_theme::get_icon_theme`, which consults configuration files, the
/// environment and `gsettings`. Nothing is claimed of the result.
#[verifier::external_body]
fn configured_icon_theme() -> (theme: Option<String>) {
    linicon_theme::get_icon_theme()
}

/// A search of the icon directories: the icon's name, the theme searched
/// first, and the icon size asked for (0: any).
pub struct IconQuery {
    pub name: String,
    pub theme: String,
    pub size: u16,
}

/// Whether an icon name can be found only as a file of that name: it holds
/// no `/` (which would make it a path) and no `.` (whose last part the final
/// search through the name's own directory drops).
pub open spec fn is_plain_icon_name(name: Seq<char>) -> bool {
    !name.contains('/') && !name.contains('.')
}

/// Whether the file at `path` is an icon file for `name`: its final
/// component is the name's UTF-8 bytes followed by `.svg`, `.png` or `.xmp`.
pub open spec fn names_icon(path: Seq<u8>, name: Seq<char>) -> bool {
    let n = vstd::utf8::encode_utf8(name);
    ||| final_component(path) == Some(n + seq![0x2eu8, 0x73u8, 0x76u8, 0x67u8])
    ||| final_component(path) == Some(n + seq![0x2eu8, 0x70u8, 0x6eu8, 0x67u8])
    ||| final_component(path) == Some(n + seq![0x2eu8, 0x78u8, 0x6du8, 0x70u8])
}

/// Runs `query` with `freedesktop_icons::lookup(name).with_theme(theme)
/// .with_size(size).with_cache().find()` and gives the found path's bytes
/// (`OsString::into_encoded_bytes`, the path's own bytes on Unix). What is on
/// disk decides whether and where an icon is found. Claimed: every path the
/// search builds is a directory joined with `{name}.svg`, `{name}.png` or
/// `{name}.xmp` (its last resort uses the name's file stem, which is the name
/// itself where the name holds no `.`), and its cache is keyed by the name;
/// so a path found for a plain name names an icon file of that name.
#[verifier::external_body]
fn find_icon_path(query: &IconQuery) -> (path: Option<Vec<u8>>)
    ensures
        path matches Some(p) ==> (is_plain_icon_name(query.name@) ==> names_icon(
            p@,
            query.name@,
        )),
{
    let search = freedesktop_icons::lookup(&query.name).with_theme(&query.theme);
    match search.with_size(query.size).with_cache().find() {
        Some(p) => Some(p.into_os_string().into_encoded_bytes()),
        None => None,
    }
}

/// An icon file, told apart by kind because raster and vector images are
/// drawn by different widgets. The file is given by its path's bytes.
#[derive(Debug)]
pub enum XdgIcon {
    Image(Vec<u8>),
    Svg(Vec<u8>),
}

impl XdgIcon {
    /// The path of the file this icon is read from.
    pub open spec fn file(self) -> Seq<u8> {
        match self {
            XdgIcon::Image(p) => p@,
            XdgIcon::Svg(p) => p@,
        }
    }

    /// The icon for the file at `path`: an SVG icon exactly when the path's
    /// extension is `svg`, a raster image otherwise.
    pub fn from_path(path: Vec<u8>) -> (icon: XdgIcon)
        ensures
            icon.file() == path@,
            icon is Svg <==> is_svg_path(path@),
    {
        let svg = match extension_range(path.as_slice()) {
            Some((a, b)) => {
                let r = piece_is(path.as_slice(), a, b, &[0x73, 0x76, 0x67]);
                assert(seq![0x73u8, 0x76u8, 0x67u8] =~= [0x73u8, 0x76u8, 0x67u8]@);
                r
            },
            None => false,
        };
        if svg {
            XdgIcon::Svg(path)
        } else {
            XdgIcon::Image(path)
        }
    }

    /// The path of the file this icon is read from.
    pub fn path(&self) -> (p: &Vec<u8>)
        ensures
            p@ == self.file(),
    {
        match self {
            XdgIcon::Image(p) => p,
            XdgIcon::Svg(p) => p,
        }
    }

    /// Whether this is a vector icon.
    pub fn is_svg(&self) -> (b: bool)
        ensures
            b <==> *self is Svg,
    {
        match self {
            XdgIcon::Image(_) => false,
            XdgIcon::Svg(_) => true,
        }
    }
}

impl Default for XdgIcon {
    /// The placeholder shown where no icon was found: a raster image read
    /// from the file `nope`, which does not exist.
    fn default() -> (icon: XdgIcon)
        ensures
            icon is Image,
            icon.file() == seq![0x6eu8, 0x6fu8, 0x70u8, 0x65u8],
    {
        let nope: Vec<u8> = vec![0x6e, 0x6f, 0x70, 0x65];
        assert(nope@ =~= seq![0x6eu8, 0x6fu8, 0x70u8, 0x65u8]);
        XdgIcon::Image(nope)
    }
}

/// Finds icons in one icon theme.
pub struct IconManager {
    theme: String,
}

impl IconManager {
    /// The theme searched first.
    pub closed spec fn theme_name(&self) -> Seq<char> {
        self.theme@
    }

    /// A manager for the theme that was found configured, or `hicolor`, the
    /// theme every XDG system has, where none was.
    pub fn with_configured(found: Option<String>) -> (manager: IconManager)
        ensures
            manager.theme_name() == (match found {
                Some(t) => t@,
                None => "hicolor"@,
            }),
    {
        match found {
            Some(t) => IconManager { theme: t },
            None => IconManager { theme: String::from_str("hicolor") },
        }
    }

    /// A manager for the user's configured icon theme, `hicolor` where none
    /// is configured.
    pub fn new() -> (manager: IconManager) {
        IconManager::with_configured(configured_icon_theme())
    }

    /// The theme searched first.
    pub fn theme(&self) -> (t: &String)
        ensures
            t@ == self.theme_name(),
    {
        &self.theme
    }

    /// The icon for a search result: none where nothing was found, else the
    /// icon for the found file.
    pub fn icon_for_found(found: Option<Vec<u8>>) -> (icon: Option<XdgIcon>)
        ensures
            icon is Some <==> found is Some,
            icon matches Some(i) ==> i.file() == found->0@ && (i is Svg <==> is_svg_path(i.file())),
    {
        match found {
            Some(p) => Some(XdgIcon::from_path(p)),
            None => None,
        }
    }

    /// Looks the icon `name` up in this manager's theme (falling back as
    /// the XDG icon specification says). Whether one is found depends on the
    /// disk; one that is found is an SVG icon exactly when its file's
    /// extension is `svg`, and, for a plain name, is a file of that name.
    pub fn lookup(&self, name: &str) -> (icon: Option<XdgIcon>)
        ensures
            icon matches Some(i) ==> (i is Svg <==> is_svg_path(i.file())),
            icon matches Some(i) ==> (is_plain_icon_name(name@) ==> names_icon(i.file(), name@)),
    {
        let query = self.query(name);
        let found = find_icon_path(&query);
        IconManager::icon_for_found(found)
    }

    /// The search `lookup` runs for `name`: that name, in this manager's
    /// theme, at any size.
    pub fn query(&self, name: &str) -> (query: IconQuery)
        ensures
            query.name@ == name@,
            query.theme@ == self.theme_name(),
            query.size == 0,
    {
        IconQuery { name: String::from_str(name), theme: self.theme.clone(), size: 0 }
    }
}

} // verus!
