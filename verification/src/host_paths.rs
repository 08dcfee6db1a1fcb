//! Paths as the host reads them. Windows has drives, shares and verbatim paths,
//! and takes both separators but in a verbatim path; other hosts have the paths
//! of `paths`.
use crate::{paths, text};
use vstd::prelude::*;

verus! {

pub open spec fn is_windows(platform: Seq<char>) -> bool {
    platform == "windows"@
}

/// Whether the host is Windows.
pub fn on_windows(platform: &str) -> (r: bool)
    ensures
        r == is_windows(platform@),
{
    text::same(platform, "windows")
}

/// Whether a character separates the names of a Windows path.
pub open spec fn separates(verbatim: bool, c: char) -> bool {
    c == '\\' || (!verbatim && c == '/')
}

/// Where the name that begins at `i` ends.
pub open spec fn piece_end(t: Seq<char>, verbatim: bool, i: int) -> int
    decreases t.len() - i,
{
    if i < 0 || i >= t.len() {
        t.len() as int
    } else if separates(verbatim, t[i]) {
        i
    } else {
        piece_end(t, verbatim, i + 1)
    }
}

pub open spec fn is_drive_letter(c: char) -> bool {
    ('a' <= c && c <= 'z') || ('A' <= c && c <= 'Z')
}

/// Whether a Windows path begins with a drive.
pub open spec fn has_drive(t: Seq<char>) -> bool {
    t.len() >= 2 && is_drive_letter(t[0]) && t[1] == ':'
}

/// Whether a Windows path is verbatim: nothing in it but `\` separates.
pub open spec fn is_verbatim(t: Seq<char>) -> bool {
    t.len() >= 4 && t[0] == '\\' && t[1] == '\\' && t[2] == '?' && t[3] == '\\'
}

pub open spec fn is_verbatim_share(t: Seq<char>) -> bool {
    is_verbatim(t) && t.len() >= 8 && t[4] == 'U' && t[5] == 'N' && t[6] == 'C' && t[7] == '\\'
}

/// Whether a Windows path names a device.
pub open spec fn is_device(t: Seq<char>) -> bool {
    t.len() >= 4 && separates(false, t[0]) && separates(false, t[1]) && t[2] == '.' && separates(
        false,
        t[3],
    )
}

/// Where the share ends whose server's name begins at `i`; the end of the server
/// where no share is named.
pub open spec fn share_end(t: Seq<char>, verbatim: bool, i: int) -> int {
    let server = piece_end(t, verbatim, i);
    if server < t.len() && piece_end(t, verbatim, server + 1) > server + 1 {
        piece_end(t, verbatim, server + 1)
    } else {
        server
    }
}

/// How long the part of a Windows path is that names its drive, share or device.
pub open spec fn prefix_end(t: Seq<char>) -> int {
    if is_verbatim_share(t) {
        share_end(t, true, 8)
    } else if is_verbatim(t) {
        piece_end(t, true, 4)
    } else if is_device(t) {
        piece_end(t, false, 4)
    } else if t.len() >= 2 && separates(false, t[0]) && separates(false, t[1]) {
        if piece_end(t, false, 2) > 2 && share_end(t, false, 2) > piece_end(t, false, 2) {
            share_end(t, false, 2)
        } else {
            0
        }
    } else if has_drive(t) {
        2
    } else {
        0
    }
}

/// A Windows path behind its drive, share or device.
pub open spec fn windows_rest(t: Seq<char>) -> Seq<char> {
    t.skip(prefix_end(t))
}

pub open spec fn begins_at_root(t: Seq<char>) -> bool {
    prefix_end(t) < t.len() && separates(is_verbatim(t), t[prefix_end(t)])
}

/// A Windows path is absolute where it names a drive and begins at its root, or
/// names a share or a device.
pub open spec fn windows_absolute(t: Seq<char>) -> bool {
    prefix_end(t) > 0 && (begins_at_root(t) || !has_drive(t))
}

/// The text between separators, in order. There is always at least one segment.
pub open spec fn windows_segments(t: Seq<char>, verbatim: bool) -> Seq<Seq<char>>
    decreases t.len(),
{
    if t.len() == 0 {
        seq![Seq::<char>::empty()]
    } else {
        let before = windows_segments(t.drop_last(), verbatim);
        if separates(verbatim, t.last()) {
            before.push(Seq::<char>::empty())
        } else {
            before.update(before.len() - 1, before.last().push(t.last()))
        }
    }
}

/// Whether the segment at `index` is a part of the path: empty segments are not,
/// and `.` only in a verbatim path or at the very start.
pub open spec fn is_windows_part(segment: Seq<char>, index: int, verbatim: bool) -> bool {
    segment.len() > 0 && (verbatim || index == 0 || segment != seq!['.'])
}

pub open spec fn windows_kept(s: Seq<Seq<char>>, n: int, verbatim: bool) -> Seq<Seq<char>>
    decreases n,
{
    if n <= 0 {
        Seq::empty()
    } else if is_windows_part(s[n - 1], n - 1, verbatim) {
        windows_kept(s, n - 1, verbatim).push(s[n - 1])
    } else {
        windows_kept(s, n - 1, verbatim)
    }
}

/// The named parts of a Windows path.
pub open spec fn windows_parts(t: Seq<char>) -> Seq<Seq<char>> {
    let s = windows_segments(windows_rest(t), is_verbatim(t));
    windows_kept(s, s.len() as int, is_verbatim(t))
}

pub open spec fn upper(c: char) -> char {
    if 'a' <= c && c <= 'z' {
        (c as u8 - 32) as char
    } else {
        c
    }
}

/// Whether the verbatim path names a drive.
pub open spec fn has_verbatim_drive(t: Seq<char>) -> bool {
    is_verbatim(t) && prefix_end(t) == 6 && is_drive_letter(t[4]) && t[5] == ':'
}

/// The drive, share or device of a Windows path in one spelling: drives are told
/// apart without regard to case, and either separator stands in the name of a
/// share.
pub open spec fn windows_prefix(t: Seq<char>) -> Seq<char> {
    Seq::new(
        prefix_end(t) as nat,
        |i: int|
            if (has_drive(t) && i == 0) || (has_verbatim_drive(t) && i == 4) {
                upper(t[i])
            } else if !is_verbatim(t) && t[i] == '/' {
                '\\'
            } else {
                t[i]
            },
    )
}

/// Whether the root stands among the components of a Windows path. It goes
/// without saying behind a share or a device that is not verbatim.
pub open spec fn has_windows_root(t: Seq<char>) -> bool {
    begins_at_root(t) || (prefix_end(t) > 0 && !has_drive(t) && !is_verbatim(t))
}

pub open spec fn windows_start(t: Seq<char>) -> Seq<Seq<char>> {
    (if prefix_end(t) > 0 {
        seq![windows_prefix(t)]
    } else {
        Seq::empty()
    }) + (if has_windows_root(t) {
        seq![seq!['\\']]
    } else {
        Seq::empty()
    })
}

/// The components of a Windows path: its drive, share or device, its root, and
/// its parts.
pub open spec fn windows_components(t: Seq<char>) -> Seq<Seq<char>> {
    windows_start(t) + windows_parts(t)
}

/// `t` without trailing separators and trailing `.` parts; the root stays.
pub open spec fn windows_trim(t: Seq<char>, verbatim: bool) -> Seq<char>
    decreases t.len(),
{
    if t.len() >= 2 && (separates(verbatim, t.last()) || (!verbatim && t.last() == '.'
        && separates(verbatim, t[t.len() - 2]))) {
        windows_trim(t.drop_last(), verbatim)
    } else {
        t
    }
}

/// `t` up to and with its last separator.
pub open spec fn windows_before(t: Seq<char>, verbatim: bool) -> Seq<char>
    decreases t.len(),
{
    if t.len() == 0 || separates(verbatim, t.last()) {
        t
    } else {
        windows_before(t.drop_last(), verbatim)
    }
}

/// The directory that holds a Windows path; a root has none.
pub open spec fn windows_parent(t: Seq<char>) -> Option<Seq<char>> {
    let verbatim = is_verbatim(t);
    let body = windows_trim(windows_rest(t), verbatim);
    if body.len() == 0 || (body.len() == 1 && separates(verbatim, body[0])) {
        None
    } else {
        Some(t.take(prefix_end(t)) + windows_trim(windows_before(body, verbatim), verbatim))
    }
}

/// A text with `\` for every `/`.
pub open spec fn with_backslashes(t: Seq<char>) -> Seq<char> {
    t.map_values(
        |c: char|
            if c == '/' {
                '\\'
            } else {
                c
            },
    )
}

/// `b` taken from the Windows directory `a`.
pub open spec fn windows_join(a: Seq<char>, b: Seq<char>) -> Seq<char> {
    if prefix_end(b) > 0 {
        b
    } else {
        let name = if is_verbatim(a) {
            with_backslashes(b)
        } else {
            b
        };
        if b.len() > 0 && separates(false, b[0]) {
            a.take(prefix_end(a)) + name
        } else if a.len() == 0 || separates(false, a.last()) || (has_drive(a) && a.len() == 2) {
            a + name
        } else {
            a.push('\\') + name
        }
    }
}

/// Whether a path of the host is absolute.
pub open spec fn host_absolute(platform: Seq<char>, t: Seq<char>) -> bool {
    if is_windows(platform) {
        windows_absolute(t)
    } else {
        paths::is_absolute(t)
    }
}

/// The named parts of a path of the host.
pub open spec fn host_parts(platform: Seq<char>, t: Seq<char>) -> Seq<Seq<char>> {
    if is_windows(platform) {
        windows_parts(t)
    } else {
        paths::parts(t)
    }
}

/// Whether a path of the host names a parent directory anywhere.
pub open spec fn host_climbs(platform: Seq<char>, t: Seq<char>) -> bool {
    host_parts(platform, t).contains(seq!['.', '.'])
}

/// An absolute path of the host that never climbs.
pub open spec fn host_plain(platform: Seq<char>, t: Seq<char>) -> bool {
    host_absolute(platform, t) && !host_climbs(platform, t)
}

/// `base` is `t` itself or one of its ancestors on the host.
pub open spec fn host_within(platform: Seq<char>, t: Seq<char>, base: Seq<char>) -> bool {
    if is_windows(platform) {
        windows_components(base).is_prefix_of(windows_components(t))
    } else {
        paths::is_within(t, base)
    }
}

/// How many components a path of the host has.
pub open spec fn host_depth(platform: Seq<char>, t: Seq<char>) -> nat {
    if is_windows(platform) {
        windows_components(t).len()
    } else {
        paths::depth(t)
    }
}

/// The last part of a path of the host, unless it is `.` or `..`.
pub open spec fn host_name(platform: Seq<char>, t: Seq<char>) -> Option<Seq<char>> {
    let p = host_parts(platform, t);
    if p.len() > 0 && p.last() != seq!['.'] && p.last() != seq!['.', '.'] {
        Some(p.last())
    } else {
        None
    }
}

/// The directory that holds a path of the host.
pub open spec fn host_parent(platform: Seq<char>, t: Seq<char>) -> Option<Seq<char>> {
    if is_windows(platform) {
        windows_parent(t)
    } else {
        paths::parent_path(t)
    }
}

/// `b` taken from the directory `a` of the host.
pub open spec fn host_join(platform: Seq<char>, a: Seq<char>, b: Seq<char>) -> Seq<char> {
    if is_windows(platform) {
        windows_join(a, b)
    } else {
        paths::join_path(a, b)
    }
}

fn is_separator(verbatim: bool, c: char) -> (r: bool)
    ensures
        r == separates(verbatim, c),
{
    c == '\\' || (!verbatim && c == '/')
}

fn letter(c: char) -> (r: bool)
    ensures
        r == is_drive_letter(c),
{
    ('a' <= c && c <= 'z') || ('A' <= c && c <= 'Z')
}

fn end_of_piece(t: &[char], verbatim: bool, from: usize) -> (r: usize)
    requires
        from <= t@.len(),
    ensures
        r == piece_end(t@, verbatim, from as int),
        from <= r <= t@.len(),
{
    let mut i: usize = from;
    while i < t.len() && !is_separator(verbatim, t[i])
        invariant
            from <= i <= t@.len(),
            piece_end(t@, verbatim, from as int) == piece_end(t@, verbatim, i as int),
        decreases t@.len() - i,
    {
        i = i + 1;
    }
    i
}

fn end_of_share(t: &[char], verbatim: bool, from: usize) -> (r: usize)
    requires
        from <= t@.len(),
    ensures
        r == share_end(t@, verbatim, from as int),
        from <= r <= t@.len(),
{
    let server = end_of_piece(t, verbatim, from);
    if server < t.len() {
        let share = end_of_piece(t, verbatim, server + 1);
        if share > server + 1 {
            return share;
        }
    }
    server
}

fn verbatim(t: &[char]) -> (r: bool)
    ensures
        r == is_verbatim(t@),
{
    t.len() >= 4 && t[0] == '\\' && t[1] == '\\' && t[2] == '?' && t[3] == '\\'
}

fn drive(t: &[char]) -> (r: bool)
    ensures
        r == has_drive(t@),
{
    t.len() >= 2 && letter(t[0]) && t[1] == ':'
}

fn end_of_prefix(t: &[char]) -> (r: usize)
    ensures
        r == prefix_end(t@),
        r <= t@.len(),
{
    if verbatim(t) {
        return if t.len() >= 8 && t[4] == 'U' && t[5] == 'N' && t[6] == 'C' && t[7] == '\\' {
            end_of_share(t, true, 8)
        } else {
            end_of_piece(t, true, 4)
        };
    }
    if t.len() >= 2 && is_separator(false, t[0]) && is_separator(false, t[1]) {
        if t.len() >= 4 && t[2] == '.' && is_separator(false, t[3]) {
            return end_of_piece(t, false, 4);
        }
        let server = end_of_piece(t, false, 2);
        let share = end_of_share(t, false, 2);
        return if server > 2 && share > server {
            share
        } else {
            0
        };
    }
    if drive(t) {
        2
    } else {
        0
    }
}

fn windows_split(t: &[char], verbatim: bool) -> (r: Vec<Vec<char>>)
    ensures
        text::piece_views(r@) == windows_segments(t@, verbatim),
{
    let mut done: Vec<Vec<char>> = Vec::new();
    let mut current: Vec<char> = Vec::new();
    assert(t@.take(0) == Seq::<char>::empty());
    assert(text::piece_views(done@).push(current@) == windows_segments(t@.take(0), verbatim));
    for i in 0..t.len()
        invariant
            text::piece_views(done@).push(current@) == windows_segments(
                t@.take(i as int),
                verbatim,
            ),
    {
        let ghost before = text::piece_views(done@);
        let ghost now = current@;
        assert(t@.take(i + 1).drop_last() == t@.take(i as int));
        if is_separator(verbatim, t[i]) {
            done.push(current);
            assert(text::piece_views(done@) == before.push(now));
            current = Vec::new();
            assert(text::piece_views(done@).push(current@) == before.push(now).push(
                Seq::<char>::empty(),
            ));
        } else {
            current.push(t[i]);
            assert(text::piece_views(done@).push(current@) == before.push(now).update(
                before.len() as int,
                now.push(t@[i as int]),
            ));
        }
    }
    assert(t@.take(t@.len() as int) == t@);
    let ghost before = text::piece_views(done@);
    let ghost now = current@;
    done.push(current);
    assert(text::piece_views(done@) == before.push(now));
    done
}

fn windows_names(t: &[char]) -> (r: Vec<Vec<char>>)
    ensures
        text::piece_views(r@) == windows_parts(t@),
{
    let whole = verbatim(t);
    let start = end_of_prefix(t);
    let rest = text::slice_of(t, start, t.len());
    assert(rest@ == windows_rest(t@));
    let all = windows_split(rest.as_slice(), whole);
    let ghost s = text::piece_views(all@);
    let mut r: Vec<Vec<char>> = Vec::new();
    assert(text::piece_views(r@) == windows_kept(s, 0, whole));
    for i in 0..all.len()
        invariant
            s == text::piece_views(all@),
            text::piece_views(r@) == windows_kept(s, i as int, whole),
    {
        let segment = &all[i];
        assert(s[i as int] == segment@);
        let dot = segment.len() == 1 && segment[0] == '.';
        proof {
            if dot {
                assert(segment@ == seq!['.']);
            } else if segment@ == seq!['.'] {
                assert(segment@.len() == 1 && segment@[0] == '.');
            }
        }
        if segment.len() > 0 && (whole || i == 0 || !dot) {
            let ghost before = text::piece_views(r@);
            r.push(text::slice_of(segment.as_slice(), 0, segment.len()));
            assert(segment@.subrange(0, segment@.len() as int) == segment@);
            assert(text::piece_views(r@) == before.push(segment@));
        }
    }
    r
}

fn capital(c: char) -> (r: char)
    ensures
        r == upper(c),
{
    if 'a' <= c && c <= 'z' {
        ((c as u8) - 32) as char
    } else {
        c
    }
}

fn prefix_text(t: &[char]) -> (r: Vec<char>)
    ensures
        r@ == windows_prefix(t@),
{
    let whole = verbatim(t);
    let end = end_of_prefix(t);
    let first = drive(t);
    let fifth = whole && end == 6 && letter(t[4]) && t[5] == ':';
    let mut r: Vec<char> = Vec::new();
    for i in 0..end
        invariant
            end == prefix_end(t@),
            end <= t@.len(),
            whole == is_verbatim(t@),
            first == has_drive(t@),
            fifth == has_verbatim_drive(t@),
            r@ == windows_prefix(t@).take(i as int),
    {
        let c = t[i];
        r.push(
            if (first && i == 0) || (fifth && i == 4) {
                capital(c)
            } else if !whole && c == '/' {
                '\\'
            } else {
                c
            },
        );
        assert(r@ =~= windows_prefix(t@).take(i + 1));
    }
    assert(windows_prefix(t@).take(end as int) =~= windows_prefix(t@));
    r
}

fn windows_list(t: &[char]) -> (r: Vec<Vec<char>>)
    ensures
        text::piece_views(r@) == windows_components(t@),
{
    let whole = verbatim(t);
    let end = end_of_prefix(t);
    let rooted = end < t.len() && is_separator(whole, t[end]);
    let mut r: Vec<Vec<char>> = Vec::new();
    if end > 0 {
        r.push(prefix_text(t));
        assert(text::piece_views(r@) =~= seq![windows_prefix(t@)]);
    }
    if rooted || (end > 0 && !drive(t) && !whole) {
        let mut root: Vec<char> = Vec::new();
        root.push('\\');
        assert(root@ =~= seq!['\\']);
        r.push(root);
    }
    assert(text::piece_views(r@) =~= windows_start(t@));
    let mut names = windows_names(t);
    let ghost n = text::piece_views(names@);
    r.append(&mut names);
    assert(text::piece_views(r@) =~= windows_start(t@) + n);
    r
}

fn same_piece(a: &[char], b: &[char]) -> (r: bool)
    ensures
        r == (a@ == b@),
{
    if a.len() != b.len() {
        return false;
    }
    let r = text::matches_at(a, b, 0);
    assert(a@.subrange(0, a@.len() as int) == a@);
    r
}

/// Whether a path of the host is absolute.
pub fn absolute(platform: &str, t: &str) -> (r: bool)
    ensures
        r == host_absolute(platform@, t@),
{
    if !on_windows(platform) {
        return paths::absolute(t);
    }
    let chars = text::chars_of(t);
    let c = chars.as_slice();
    let end = end_of_prefix(c);
    end > 0 && (!drive(c) || (end < c.len() && is_separator(verbatim(c), c[end])))
}

/// The named parts of a path of the host.
pub fn parts(platform: &str, t: &str) -> (r: Vec<Vec<char>>)
    ensures
        text::piece_views(r@) == host_parts(platform@, t@),
{
    if on_windows(platform) {
        let chars = text::chars_of(t);
        windows_names(chars.as_slice())
    } else {
        paths::path_parts(t)
    }
}

/// Whether a path of the host names a parent directory anywhere.
pub fn climbs(platform: &str, t: &str) -> (r: bool)
    ensures
        r == host_climbs(platform@, t@),
{
    let p = parts(platform, t);
    let ghost v = host_parts(platform@, t@);
    for i in 0..p.len()
        invariant
            v == host_parts(platform@, t@),
            text::piece_views(p@) == v,
            forall|j: int| 0 <= j < i ==> #[trigger] v[j] != seq!['.', '.'],
    {
        let part = &p[i];
        assert(v[i as int] == part@);
        if part.len() == 2 && part[0] == '.' && part[1] == '.' {
            assert(part@ == seq!['.', '.']);
            return true;
        }
        assert(part@ != seq!['.', '.']);
    }
    assert(v.len() == p@.len());
    false
}

/// Whether a path of the host is absolute and never climbs.
pub fn plain(platform: &str, t: &str) -> (r: bool)
    ensures
        r == host_plain(platform@, t@),
{
    absolute(platform, t) && !climbs(platform, t)
}

/// Whether `base` is `t` itself or one of its ancestors on the host.
pub fn within(platform: &str, t: &str, base: &str) -> (r: bool)
    ensures
        r == host_within(platform@, t@, base@),
{
    if !on_windows(platform) {
        return paths::within(t, base);
    }
    let tc = text::chars_of(t);
    let bc = text::chars_of(base);
    let a = windows_list(tc.as_slice());
    let b = windows_list(bc.as_slice());
    let ghost ap = windows_components(t@);
    let ghost bp = windows_components(base@);
    if b.len() > a.len() {
        return false;
    }
    for i in 0..b.len()
        invariant
            text::piece_views(a@) == ap,
            text::piece_views(b@) == bp,
            is_windows(platform@),
            ap == windows_components(t@),
            bp == windows_components(base@),
            bp.len() <= ap.len(),
            forall|j: int| 0 <= j < i ==> #[trigger] bp[j] == ap[j],
    {
        assert(ap[i as int] == a@[i as int]@ && bp[i as int] == b@[i as int]@);
        if !same_piece(a[i].as_slice(), b[i].as_slice()) {
            assert(ap.subrange(0, bp.len() as int)[i as int] != bp[i as int]);
            return false;
        }
    }
    assert(ap.subrange(0, bp.len() as int) == bp);
    true
}

/// How many components a path of the host has.
pub fn depth(platform: &str, t: &str) -> (r: u128)
    ensures
        r == host_depth(platform@, t@),
{
    if on_windows(platform) {
        let chars = text::chars_of(t);
        let all = windows_list(chars.as_slice());
        assert(text::piece_views(all@).len() == all@.len());
        all.len() as u128
    } else {
        let all = paths::path_parts(t);
        assert(text::piece_views(all@).len() == all@.len());
        all.len() as u128 + if paths::absolute(t) {
            1u128
        } else {
            0u128
        }
    }
}

/// The last part of a path of the host, unless it is `.` or `..`.
pub fn name(platform: &str, t: &str) -> (r: Option<String>)
    ensures
        match r {
            Some(name) => host_name(platform@, t@) == Some(name@),
            None => host_name(platform@, t@) is None,
        },
{
    let mut p = parts(platform, t);
    let ghost views = text::piece_views(p@);
    match p.pop() {
        Some(last) => {
            assert(last@ == views.last());
            if (last.len() == 1 && last[0] == '.') || (last.len() == 2 && last[0] == '.' && last[1]
                == '.') {
                assert(last@ == seq!['.'] || last@ == seq!['.', '.']);
                None
            } else {
                Some(text::string_of(last.as_slice()))
            }
        },
        None => None,
    }
}

fn trimmed(t: &[char], verbatim: bool) -> (n: usize)
    ensures
        n <= t@.len(),
        windows_trim(t@, verbatim) == t@.take(n as int),
{
    let mut n: usize = t.len();
    assert(t@.take(n as int) == t@);
    while n >= 2 && (is_separator(verbatim, t[n - 1]) || (!verbatim && t[n - 1] == '.'
        && is_separator(verbatim, t[n - 2])))
        invariant
            n <= t@.len(),
            windows_trim(t@, verbatim) == windows_trim(t@.take(n as int), verbatim),
        decreases n,
    {
        assert(t@.take(n as int).drop_last() == t@.take(n - 1));
        n = n - 1;
    }
    n
}

/// The directory that holds a path of the host.
pub fn parent(platform: &str, t: &str) -> (r: Option<String>)
    ensures
        match r {
            Some(p) => host_parent(platform@, t@) == Some(p@),
            None => host_parent(platform@, t@) is None,
        },
{
    if !on_windows(platform) {
        return paths::parent(t);
    }
    let chars = text::chars_of(t);
    let whole = verbatim(chars.as_slice());
    let end = end_of_prefix(chars.as_slice());
    let rest = text::slice_of(chars.as_slice(), end, chars.len());
    assert(rest@ == windows_rest(t@));
    let n = trimmed(rest.as_slice(), whole);
    let body = text::slice_of(rest.as_slice(), 0, n);
    assert(body@ == windows_trim(rest@, whole));
    if body.len() == 0 || (body.len() == 1 && is_separator(whole, body[0])) {
        return None;
    }
    let mut m: usize = body.len();
    assert(body@.take(m as int) == body@);
    while m > 0 && !is_separator(whole, body[m - 1])
        invariant
            m <= body@.len(),
            windows_before(body@, whole) == windows_before(body@.take(m as int), whole),
        decreases m,
    {
        assert(body@.take(m as int).drop_last() == body@.take(m - 1));
        m = m - 1;
    }
    let before = text::slice_of(body.as_slice(), 0, m);
    assert(before@ == windows_before(body@, whole));
    let k = trimmed(before.as_slice(), whole);
    let kept = text::slice_of(before.as_slice(), 0, k);
    assert(kept@ == before@.take(k as int));
    let start = text::slice_of(chars.as_slice(), 0, end);
    assert(start@ == t@.take(end as int));
    let mut r = text::string_of(start.as_slice());
    let last = text::string_of(kept.as_slice());
    r.append(last.as_str());
    Some(r)
}

fn backslashed(t: &str) -> (r: String)
    ensures
        r@ == with_backslashes(t@),
{
    let chars = text::chars_of(t);
    let mut r = String::new();
    for i in 0..chars.len()
        invariant
            chars@ == t@,
            r@ == with_backslashes(t@).take(i as int),
    {
        let c = chars[i];
        r.push(
            if c == '/' {
                '\\'
            } else {
                c
            },
        );
        assert(r@ =~= with_backslashes(t@).take(i + 1));
    }
    assert(with_backslashes(t@).take(t@.len() as int) =~= with_backslashes(t@));
    r
}

/// `b` taken from the directory `a` of the host.
pub fn join(platform: &str, a: &str, b: &str) -> (r: String)
    ensures
        r@ == host_join(platform@, a@, b@),
{
    if !on_windows(platform) {
        return paths::join(a, b);
    }
    let left = text::chars_of(a);
    let right = text::chars_of(b);
    if end_of_prefix(right.as_slice()) > 0 {
        return b.to_owned();
    }
    let name = if verbatim(left.as_slice()) {
        backslashed(b)
    } else {
        b.to_owned()
    };
    if right.len() > 0 && is_separator(false, right[0]) {
        let end = end_of_prefix(left.as_slice());
        let start = text::slice_of(left.as_slice(), 0, end);
        assert(start@ == a@.take(end as int));
        let mut r = text::string_of(start.as_slice());
        r.append(name.as_str());
        return r;
    }
    let mut r = a.to_owned();
    let n = left.len();
    if n > 0 && !is_separator(false, left[n - 1]) && !(n == 2 && drive(left.as_slice())) {
        r.push('\\');
    }
    r.append(name.as_str());
    r
}

/// On every host a path is within itself.
pub proof fn places_hold_themselves(platform: Seq<char>, t: Seq<char>)
    ensures
        host_within(platform, t, t),
{
    paths::within_itself(t);
    let c = windows_components(t);
    assert(c.subrange(0, c.len() as int) == c);
}

/// On every host a place within a place within a third is within the third.
pub proof fn places_are_nested(platform: Seq<char>, a: Seq<char>, b: Seq<char>, c: Seq<char>)
    requires
        host_within(platform, a, b),
        host_within(platform, b, c),
    ensures
        host_within(platform, a, c),
{
    if is_windows(platform) {
        let pa = windows_components(a);
        let pb = windows_components(b);
        let pc = windows_components(c);
        assert(pa.subrange(0, pc.len() as int) == pb.subrange(0, pc.len() as int)) by {
            assert forall|i: int| 0 <= i < pc.len() implies pa[i] == pb[i] by {
                assert(pa.subrange(0, pb.len() as int)[i] == pb[i]);
            }
        }
    } else {
        paths::within_chain(a, b, c);
    }
}

/// A deeper place never holds a shallower one.
pub proof fn places_deepen(platform: Seq<char>, t: Seq<char>, base: Seq<char>)
    requires
        host_within(platform, t, base),
    ensures
        host_depth(platform, base) <= host_depth(platform, t),
{
}

} // verus!
