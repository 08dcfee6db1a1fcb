//! Host paths as slash-separated text. Repeated separators, inner `.` parts and
//! a trailing separator carry no meaning; `..` is kept as a part.
use crate::text;
use vstd::prelude::*;
use vstd::utf8::encode_utf8;

verus! {

/// The text between separators, in order. There is always at least one segment.
pub open spec fn segments(t: Seq<char>) -> Seq<Seq<char>> {
    text::split_char(t, '/')
}

/// Whether the segment at `index` is a part of the path: empty segments are
/// not, and `.` only at the very start.
pub open spec fn is_part(segment: Seq<char>, index: int) -> bool {
    segment.len() > 0 && (index == 0 || segment != seq!['.'])
}

pub open spec fn kept_segments(s: Seq<Seq<char>>, n: int) -> Seq<Seq<char>>
    decreases n,
{
    if n <= 0 {
        Seq::empty()
    } else if is_part(s[n - 1], n - 1) {
        kept_segments(s, n - 1).push(s[n - 1])
    } else {
        kept_segments(s, n - 1)
    }
}

/// The named parts of a path.
pub open spec fn parts(t: Seq<char>) -> Seq<Seq<char>> {
    kept_segments(segments(t), segments(t).len() as int)
}

pub open spec fn is_absolute(t: Seq<char>) -> bool {
    t.len() > 0 && t[0] == '/'
}

/// Whether the path names a parent directory anywhere.
pub open spec fn climbs(t: Seq<char>) -> bool {
    parts(t).contains(seq!['.', '.'])
}

/// An absolute path that never climbs.
pub open spec fn is_plain_absolute(t: Seq<char>) -> bool {
    is_absolute(t) && !climbs(t)
}

/// `base` is `t` itself or one of its ancestors.
pub open spec fn is_within(t: Seq<char>, base: Seq<char>) -> bool {
    is_absolute(t) == is_absolute(base) && parts(base).is_prefix_of(parts(t))
}

/// Two paths that name the same place.
pub open spec fn same_path(a: Seq<char>, b: Seq<char>) -> bool {
    is_absolute(a) == is_absolute(b) && parts(a) == parts(b)
}

/// How many components a path has, its root among them.
pub open spec fn depth(t: Seq<char>) -> nat {
    parts(t).len() + (if is_absolute(t) {
        1nat
    } else {
        0nat
    })
}

/// `b` taken from the directory `a`.
pub open spec fn join_path(a: Seq<char>, b: Seq<char>) -> Seq<char> {
    if is_absolute(b) {
        b
    } else if a.len() == 0 || a.last() == '/' {
        a + b
    } else {
        a.push('/') + b
    }
}

/// The last part of a path, unless it is `.` or `..`.
pub open spec fn file_name(t: Seq<char>) -> Option<Seq<char>> {
    if parts(t).len() > 0 && parts(t).last() != seq!['.'] && parts(t).last() != seq!['.', '.'] {
        Some(parts(t).last())
    } else {
        None
    }
}

/// `t` without trailing separators and trailing `.` parts; the root stays.
pub open spec fn tail_trim(t: Seq<char>) -> Seq<char>
    decreases t.len(),
{
    if t.len() >= 2 && (t.last() == '/' || (t.last() == '.' && t[t.len() - 2] == '/')) {
        tail_trim(t.drop_last())
    } else {
        t
    }
}

/// `t` up to and with its last separator.
pub open spec fn before_last(t: Seq<char>) -> Seq<char>
    decreases t.len(),
{
    if t.len() == 0 || t.last() == '/' {
        t
    } else {
        before_last(t.drop_last())
    }
}

/// The directory that holds a path; the root and the empty path have none.
pub open spec fn parent_path(t: Seq<char>) -> Option<Seq<char>> {
    let body = tail_trim(t);
    if body.len() == 0 || body == seq!['/'] {
        None
    } else {
        Some(tail_trim(before_last(body)))
    }
}

/// The parts joined by separators.
pub open spec fn joined_parts(p: Seq<Seq<char>>) -> Seq<char>
    decreases p.len(),
{
    if p.len() == 0 {
        Seq::empty()
    } else if p.len() == 1 {
        p[0]
    } else {
        joined_parts(p.drop_last()).push('/') + p.last()
    }
}

pub open spec fn part_views(v: Seq<Vec<char>>) -> Seq<Seq<char>> {
    text::piece_views(v)
}

/// How many bytes the text takes.
pub fn byte_len(t: &str) -> (n: usize)
    ensures
        n == encode_utf8(t@).len(),
{
    t.as_bytes().len()
}

/// The named parts of a path.
pub fn path_parts(t: &str) -> (r: Vec<Vec<char>>)
    ensures
        part_views(r@) == parts(t@),
{
    let chars = text::chars_of(t);
    let all = text::split_on(chars.as_slice(), '/');
    let ghost s = part_views(all@);
    let mut r: Vec<Vec<char>> = Vec::new();
    assert(part_views(r@) == kept_segments(s, 0));
    for i in 0..all.len()
        invariant
            s == part_views(all@),
            part_views(r@) == kept_segments(s, i as int),
    {
        let segment = &all[i];
        assert(s[i as int] == segment@);
        let dot = segment.len() == 1 && segment[0] == '.';
        proof {
            if dot {
                assert(segment@ == seq!['.']);
            } else if segment@ == seq!['.'] {
                assert(segment@.len() == 1 && segment@[0] == '.');
            }
        }
        if segment.len() > 0 && (i == 0 || !dot) {
            let ghost before = part_views(r@);
            r.push(text::slice_of(segment.as_slice(), 0, segment.len()));
            assert(segment@.subrange(0, segment@.len() as int) == segment@);
            assert(part_views(r@) == before.push(segment@));
        }
    }
    r
}

pub fn absolute(t: &str) -> (r: bool)
    ensures
        r == is_absolute(t@),
{
    let chars = text::chars_of(t);
    chars.len() > 0 && chars[0] == '/'
}

fn same_chars(a: &[char], b: &[char]) -> (r: bool)
    ensures
        r == (a@ == b@),
{
    if a.len() != b.len() {
        return false;
    }
    let r = text::matches_at(a, b, 0);
    assert(a@.subrange(0, a@.len() as int) == a@);
    r
}

/// Whether the path names a parent directory anywhere.
pub fn path_climbs(t: &str) -> (r: bool)
    ensures
        r == climbs(t@),
{
    let p = path_parts(t);
    for i in 0..p.len()
        invariant
            part_views(p@) == parts(t@),
            forall|j: int| 0 <= j < i ==> #[trigger] parts(t@)[j] != seq!['.', '.'],
    {
        let part = &p[i];
        assert(parts(t@)[i as int] == part@);
        if part.len() == 2 && part[0] == '.' && part[1] == '.' {
            assert(part@ == seq!['.', '.']);
            return true;
        }
        assert(part@ != seq!['.', '.']);
    }
    false
}

/// Whether a path is absolute and never climbs.
pub fn plain_absolute(t: &str) -> (r: bool)
    ensures
        r == is_plain_absolute(t@),
{
    absolute(t) && !path_climbs(t)
}

/// Whether `base` is `t` itself or one of its ancestors.
pub fn within(t: &str, base: &str) -> (r: bool)
    ensures
        r == is_within(t@, base@),
{
    if absolute(t) != absolute(base) {
        return false;
    }
    let a = path_parts(t);
    let b = path_parts(base);
    let ghost ap = parts(t@);
    let ghost bp = parts(base@);
    if b.len() > a.len() {
        return false;
    }
    for i in 0..b.len()
        invariant
            part_views(a@) == ap,
            part_views(b@) == bp,
            ap == parts(t@),
            bp == parts(base@),
            bp.len() <= ap.len(),
            forall|j: int| 0 <= j < i ==> #[trigger] bp[j] == ap[j],
    {
        assert(ap[i as int] == a@[i as int]@ && bp[i as int] == b@[i as int]@);
        if !same_chars(a[i].as_slice(), b[i].as_slice()) {
            assert(ap.subrange(0, bp.len() as int)[i as int] != bp[i as int]);
            return false;
        }
    }
    assert(ap.subrange(0, bp.len() as int) == bp);
    true
}

/// Whether two paths name the same place.
pub fn path_eq(a: &str, b: &str) -> (r: bool)
    ensures
        r == same_path(a@, b@),
{
    let r = within(a, b) && within(b, a);
    proof {
        let ap = parts(a@);
        let bp = parts(b@);
        if r {
            assert(ap.len() == bp.len());
            assert(ap.subrange(0, bp.len() as int) == ap);
        }
        if ap == bp {
            assert(ap.subrange(0, ap.len() as int) == ap);
        }
    }
    r
}

proof fn lemma_segments_bounded(t: Seq<char>)
    ensures
        0 < segments(t).len() <= t.len() + 1,
        is_absolute(t) ==> segments(t)[0].len() == 0,
        is_absolute(t) ==> segments(t).len() >= 2,
    decreases t.len(),
{
    if t.len() > 0 {
        lemma_segments_bounded(t.drop_last());
        if t.len() == 1 {
            assert(segments(t.drop_last()) == seq![Seq::<char>::empty()]);
        } else {
            assert(t.drop_last()[0] == t[0]);
        }
    }
}

proof fn lemma_kept_bounded(s: Seq<Seq<char>>, n: int)
    requires
        0 <= n <= s.len(),
    ensures
        kept_segments(s, n).len() <= n,
        n > 0 && s[0].len() == 0 ==> kept_segments(s, n).len() <= n - 1,
    decreases n,
{
    if n > 0 {
        lemma_kept_bounded(s, n - 1);
    }
}

/// `b` taken from the directory `a`.
pub fn join(a: &str, b: &str) -> (r: String)
    ensures
        r@ == join_path(a@, b@),
{
    if absolute(b) {
        return b.to_owned();
    }
    let left = text::chars_of(a);
    let mut r = a.to_owned();
    if left.len() > 0 && left[left.len() - 1] != '/' {
        r.push('/');
    }
    r.append(b);
    r
}

/// The last part of a path, unless it is `.` or `..`.
pub fn name_of(t: &str) -> (r: Option<Vec<char>>)
    ensures
        match r {
            Some(name) => file_name(t@) == Some(name@),
            None => file_name(t@) is None,
        },
{
    let mut p = path_parts(t);
    let ghost views = part_views(p@);
    match p.pop() {
        Some(last) => {
            assert(last@ == views.last());
            if (last.len() == 1 && last[0] == '.') || (last.len() == 2 && last[0] == '.' && last[1]
                == '.') {
                assert(last@ == seq!['.'] || last@ == seq!['.', '.']);
                None
            } else {
                Some(last)
            }
        },
        None => None,
    }
}

fn tail_trimmed(t: &[char]) -> (n: usize)
    ensures
        n <= t@.len(),
        tail_trim(t@) == t@.take(n as int),
{
    let mut n: usize = t.len();
    assert(t@.take(n as int) == t@);
    while n >= 2 && (t[n - 1] == '/' || (t[n - 1] == '.' && t[n - 2] == '/'))
        invariant
            n <= t@.len(),
            tail_trim(t@) == tail_trim(t@.take(n as int)),
        decreases n,
    {
        assert(t@.take(n as int).drop_last() == t@.take(n - 1));
        n = n - 1;
    }
    n
}

/// The directory that holds a path; the root and the empty path have none.
pub fn parent(t: &str) -> (r: Option<String>)
    ensures
        match r {
            Some(p) => parent_path(t@) == Some(p@),
            None => parent_path(t@) is None,
        },
{
    let chars = text::chars_of(t);
    let n = tail_trimmed(chars.as_slice());
    let body = text::slice_of(chars.as_slice(), 0, n);
    assert(body@ == tail_trim(t@));
    if body.len() == 0 || (body.len() == 1 && body[0] == '/') {
        assert(body.len() == 1 ==> body@ == seq!['/']);
        return None;
    }
    assert(body@ != seq!['/']);
    let mut m: usize = body.len();
    assert(body@.take(m as int) == body@);
    while m > 0 && body[m - 1] != '/'
        invariant
            m <= body@.len(),
            before_last(body@) == before_last(body@.take(m as int)),
        decreases m,
    {
        assert(body@.take(m as int).drop_last() == body@.take(m - 1));
        m = m - 1;
    }
    let before = text::slice_of(body.as_slice(), 0, m);
    assert(before@ == before_last(body@));
    let k = tail_trimmed(before.as_slice());
    let kept = text::slice_of(before.as_slice(), 0, k);
    assert(kept@ == before@.take(k as int));
    Some(text::string_of(kept.as_slice()))
}

/// The parts `from..` of a list, joined by separators.
pub fn join_parts(p: &[Vec<char>], from: usize) -> (r: String)
    requires
        from <= p@.len(),
    ensures
        r@ == joined_parts(part_views(p@).skip(from as int)),
{
    let ghost all = part_views(p@).skip(from as int);
    let mut r = String::new();
    let mut i: usize = from;
    assert(all.take(0) == Seq::<Seq<char>>::empty());
    while i < p.len()
        invariant
            from <= i <= p@.len(),
            all == part_views(p@).skip(from as int),
            r@ == joined_parts(all.take(i - from)),
        decreases p@.len() - i,
    {
        let ghost k = i - from;
        assert(all.take(k + 1).drop_last() == all.take(k));
        assert(all[k] == p@[i as int]@);
        if i > from {
            r.push('/');
        }
        let part = text::string_of(p[i].as_slice());
        r.append(part.as_str());
        proof {
            if k == 0 {
                assert(r@ == all[0]);
                assert(all.take(1)[0] == all[0]);
            }
        }
        i = i + 1;
    }
    assert(all.take(p@.len() - from) == all);
    r
}

/// Being within is reflexive.
pub proof fn within_itself(t: Seq<char>)
    ensures
        is_within(t, t),
{
    assert(parts(t).subrange(0, parts(t).len() as int) == parts(t));
}

/// A place within a place within a third is within the third.
pub proof fn within_chain(a: Seq<char>, b: Seq<char>, c: Seq<char>)
    requires
        is_within(a, b),
        is_within(b, c),
    ensures
        is_within(a, c),
{
    let pa = parts(a);
    let pb = parts(b);
    let pc = parts(c);
    assert(pa.subrange(0, pc.len() as int) == pb.subrange(0, pc.len() as int)) by {
        assert forall|i: int| 0 <= i < pc.len() implies pa[i] == pb[i] by {
            assert(pa.subrange(0, pb.len() as int)[i] == pb[i]);
        }
    }
}

proof fn lemma_split_joined(a: Seq<char>, b: Seq<char>)
    ensures
        segments(a.push('/') + b) == segments(a) + segments(b),
    decreases b.len(),
{
    let t = a.push('/') + b;
    if b.len() == 0 {
        assert(t =~= a.push('/'));
        assert(t.drop_last() =~= a);
        assert(segments(t) =~= segments(a) + segments(b));
    } else {
        assert(t.drop_last() =~= a.push('/') + b.drop_last());
        lemma_split_joined(a, b.drop_last());
        let before = segments(b.drop_last());
        assert(before.len() > 0) by {
            lemma_segments_some(b.drop_last());
        }
        assert(t.last() == b.last());
        assert(segments(t) =~= segments(a) + segments(b));
    }
}

proof fn lemma_segments_some(t: Seq<char>)
    ensures
        segments(t).len() > 0,
    decreases t.len(),
{
    if t.len() > 0 {
        lemma_segments_some(t.drop_last());
    }
}

proof fn lemma_kept_joined(x: Seq<Seq<char>>, y: Seq<Seq<char>>, n: int)
    requires
        x.len() > 0,
        0 <= n <= y.len(),
        y.len() > 0 ==> y[0] != seq!['.'],
    ensures
        kept_segments(x + y, x.len() + n) == kept_segments(x, x.len() as int) + kept_segments(y, n),
    decreases n,
{
    let all = x + y;
    if n == 0 {
        lemma_kept_first(x, y, x.len() as int);
        assert(kept_segments(y, 0) =~= Seq::<Seq<char>>::empty());
        assert(kept_segments(x, x.len() as int) + kept_segments(y, 0) =~= kept_segments(
            x,
            x.len() as int,
        ));
    } else {
        lemma_kept_joined(x, y, n - 1);
        assert(all[x.len() + n - 1] == y[n - 1]);
        assert(kept_segments(all, x.len() + n) =~= kept_segments(x, x.len() as int)
            + kept_segments(y, n));
    }
}

proof fn lemma_kept_first(x: Seq<Seq<char>>, y: Seq<Seq<char>>, n: int)
    requires
        0 <= n <= x.len(),
    ensures
        kept_segments(x + y, n) == kept_segments(x, n),
    decreases n,
{
    if n > 0 {
        lemma_kept_first(x, y, n - 1);
        assert((x + y)[n - 1] == x[n - 1]);
    }
}

/// A path taken from a directory has the parts of both. Only a leading `.`,
/// which counts as a part at the very start alone, would be lost.
pub proof fn joined_path_has_both(a: Seq<char>, b: Seq<char>)
    requires
        a.len() > 0,
        !is_absolute(b),
        segments(b)[0] != seq!['.'],
    ensures
        parts(join_path(a, b)) == parts(a) + parts(b),
        is_absolute(join_path(a, b)) == is_absolute(a),
{
    lemma_segments_some(a);
    lemma_segments_some(b);
    if a.last() == '/' {
        let c = a.drop_last();
        assert(a =~= c.push('/'));
        assert(join_path(a, b) =~= c.push('/') + b);
        lemma_split_joined(c, b);
        lemma_segments_some(c);
        lemma_kept_joined(segments(c), segments(b), segments(b).len() as int);
        assert(a =~= c.push('/') + Seq::<char>::empty());
        lemma_split_joined(c, Seq::empty());
        let e = segments(Seq::<char>::empty());
        assert(e.len() == 1 && e[0].len() == 0);
        lemma_kept_joined(segments(c), e, 1);
        assert(kept_segments(e, 0) =~= Seq::<Seq<char>>::empty());
        assert(kept_segments(e, 1) =~= Seq::<Seq<char>>::empty());
        assert(parts(a) =~= parts(c));
    } else {
        lemma_split_joined(a, b);
        lemma_kept_joined(segments(a), segments(b), segments(b).len() as int);
    }
}

/// A name without separators is its own only part.
pub proof fn names_are_single_parts(t: Seq<char>)
    requires
        t.len() > 0,
        forall|i: int| 0 <= i < t.len() ==> t[i] != '/',
    ensures
        segments(t) == seq![t],
        parts(t) == seq![t],
{
    lemma_single(t);
    let s = segments(t);
    assert(kept_segments(s, 0) =~= Seq::<Seq<char>>::empty());
    assert(kept_segments(s, 1) =~= seq![t]);
}

proof fn lemma_single(t: Seq<char>)
    requires
        forall|i: int| 0 <= i < t.len() ==> t[i] != '/',
    ensures
        segments(t) == seq![t],
    decreases t.len(),
{
    if t.len() > 0 {
        assert forall|i: int| 0 <= i < t.drop_last().len() implies t.drop_last()[i] != '/' by {
            assert(t.drop_last()[i] == t[i]);
        }
        lemma_single(t.drop_last());
        assert(t.drop_last().push(t.last()) =~= t);
        assert(segments(t) =~= seq![t]);
    } else {
        assert(t =~= Seq::<char>::empty());
        assert(segments(t) =~= seq![t]);
    }
}

/// A text that can be the part of a path.
pub open spec fn is_name(t: Seq<char>) -> bool {
    t.len() > 0 && forall|i: int| 0 <= i < t.len() ==> t[i] != '/'
}

proof fn lemma_segments_plain(t: Seq<char>)
    ensures
        forall|k: int, i: int|
            0 <= k < segments(t).len() && 0 <= i < segments(t)[k].len() ==> (#[trigger] segments(
                t,
            )[k][i]) != '/',
    decreases t.len(),
{
    if t.len() > 0 {
        lemma_segments_plain(t.drop_last());
        lemma_segments_some(t.drop_last());
        let before = segments(t.drop_last());
        let now = segments(t);
        assert forall|k: int, i: int|
            0 <= k < now.len() && 0 <= i < now[k].len() implies (#[trigger] now[k][i]) != '/' by {
            if k < before.len() - 1 {
                assert(now[k] == before[k]);
                assert(before[k][i] != '/');
            } else if t.last() == '/' {
                if k < before.len() {
                    assert(now[k] == before[k]);
                    assert(before[k][i] != '/');
                }
            } else if i < before.last().len() {
                assert(before[k][i] != '/');
            }
        }
    }
}

proof fn lemma_kept_names(s: Seq<Seq<char>>, n: int)
    requires
        0 <= n <= s.len(),
        forall|k: int, i: int|
            0 <= k < s.len() && 0 <= i < s[k].len() ==> (#[trigger] s[k][i]) != '/',
    ensures
        forall|j: int|
            0 <= j < kept_segments(s, n).len() ==> is_name(#[trigger] kept_segments(s, n)[j]) && (j
                > 0 ==> kept_segments(s, n)[j] != seq!['.']),
        kept_segments(s, n).len() <= n,
    decreases n,
{
    if n > 0 {
        lemma_kept_names(s, n - 1);
        let before = kept_segments(s, n - 1);
        let now = kept_segments(s, n);
        assert forall|j: int| 0 <= j < now.len() implies is_name(#[trigger] now[j]) && (j > 0
            ==> now[j] != seq!['.']) by {
            if j < before.len() {
                assert(now[j] == before[j]);
            } else {
                assert(now[j] == s[n - 1]);
            }
        }
    }
}

/// The parts of a path are names, and none but the first is `.`.
pub proof fn parts_are_names(t: Seq<char>)
    ensures
        forall|j: int|
            0 <= j < parts(t).len() ==> is_name(#[trigger] parts(t)[j]) && (j > 0 ==> parts(t)[j]
                != seq!['.']),
{
    lemma_segments_plain(t);
    lemma_kept_names(segments(t), segments(t).len() as int);
}

/// Names joined by separators make a relative path of just those segments.
pub proof fn joined_names_are_relative(p: Seq<Seq<char>>)
    requires
        p.len() > 0,
        forall|j: int| 0 <= j < p.len() ==> is_name(#[trigger] p[j]),
    ensures
        segments(joined_parts(p)) == p,
        joined_parts(p).len() > 0,
        !is_absolute(joined_parts(p)),
    decreases p.len(),
{
    if p.len() == 1 {
        assert(is_name(p[0]));
        names_are_single_parts(p[0]);
        assert(p =~= seq![p[0]]);
    } else {
        let rest = p.drop_last();
        assert forall|j: int| 0 <= j < rest.len() implies is_name(#[trigger] rest[j]) by {
            assert(rest[j] == p[j]);
        }
        joined_names_are_relative(rest);
        assert(is_name(p[p.len() - 1]));
        names_are_single_parts(p.last());
        lemma_split_joined(joined_parts(rest), p.last());
        assert(segments(joined_parts(p)) =~= p);
        assert(joined_parts(p)[0] == joined_parts(rest)[0]);
    }
}

} // verus!
