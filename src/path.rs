use crate::support::{lower_chars, push_char, share};
use std::sync::Arc;
use vstd::prelude::*;
use vstd::string::StrSliceExecFns;

verus! {

/// The canonical separator between path segments.
pub const SEPARATOR: char = '/';

/// Characters that separate segments in a raw path.
pub open spec fn is_separator(c: char) -> bool {
    c == '/' || c == '\\'
}

/// The lowercase mapping of `c`: what `char::to_lowercase` yields for it.
pub uninterp spec fn lower_of(c: char) -> Seq<char>;

/// A raw path read left to right: a leading separator, then each run of
/// separators (either slash) as one `/`, and every other character replaced
/// by its lowercase mapping.
pub open spec fn collapse(s: Seq<char>) -> Seq<char>
    decreases s.len(),
{
    if s.len() == 0 {
        seq!['/']
    } else {
        let p = collapse(s.drop_last());
        let c = s.last();
        if is_separator(c) {
            if p.last() == '/' {
                p
            } else {
                p.push('/')
            }
        } else {
            p + lower_of(c)
        }
    }
}

/// The canonical form of a raw path: its collapsed form without a trailing
/// separator, unless that separator is the leading one.
pub open spec fn normalize(s: Seq<char>) -> Seq<char> {
    let t = collapse(s);
    if t.len() > 1 && t.last() == '/' {
        t.drop_last()
    } else {
        t
    }
}

/// A path in canonical form: it starts with `/`, holds no backslash, no two
/// separators in a row, and ends with a separator only when it is `/` alone.
pub open spec fn is_normalized(s: Seq<char>) -> bool {
    &&& s.len() >= 1
    &&& s[0] == '/'
    &&& forall|i: int| 0 <= i < s.len() ==> #[trigger] s[i] != '\\'
    &&& forall|i: int| 1 <= i < s.len() && #[trigger] s[i] == '/' ==> s[i - 1] != '/'
    &&& s.len() > 1 ==> s.last() != '/'
}

/// Lowercasing a character of `s` other than a separator never yields a
/// separator.
pub open spec fn lowers_cleanly(s: Seq<char>) -> bool {
    forall|i: int, j: int|
        0 <= i < s.len() && !is_separator(s[i]) && 0 <= j < lower_of(s[i]).len() ==> !is_separator(
            #[trigger] lower_of(s[i])[j],
        )
}

/// Every character of `s` other than a separator is its own lowercase
/// mapping.
pub open spec fn lowercase_stable(s: Seq<char>) -> bool {
    forall|i: int| 0 <= i < s.len() && !is_separator(#[trigger] s[i]) ==> lower_of(s[i]) == seq![s[i]]
}

/// Index of the last occurrence of `c` in `s`, or -1 when there is none.
pub open spec fn last_index_of(s: Seq<char>, c: char) -> int
    decreases s.len(),
{
    if s.len() == 0 {
        -1
    } else if s.last() == c {
        s.len() - 1
    } else {
        last_index_of(s.drop_last(), c)
    }
}

/// Where the last segment of `s` starts.
pub open spec fn name_start(s: Seq<char>) -> int {
    last_index_of(s, '/') + 1
}

/// The characters after the last separator.
pub open spec fn filename_of(s: Seq<char>) -> Seq<char> {
    s.subrange(name_start(s), s.len() as int)
}

/// The last segment holds a dot.
pub open spec fn has_extension(s: Seq<char>) -> bool {
    last_index_of(s, '.') >= name_start(s)
}

/// The last segment without its extension.
pub open spec fn stem_of(s: Seq<char>) -> Seq<char> {
    if has_extension(s) {
        s.subrange(name_start(s), last_index_of(s, '.'))
    } else {
        filename_of(s)
    }
}

/// What follows the last dot of the last segment, if that segment has a dot.
pub open spec fn extension_of(s: Seq<char>) -> Option<Seq<char>> {
    if has_extension(s) {
        Some(s.subrange(last_index_of(s, '.') + 1, s.len() as int))
    } else {
        None
    }
}

/// What precedes the last separator, unless that separator is the leading one
/// (or there is none).
pub open spec fn parent_of(s: Seq<char>) -> Option<Seq<char>> {
    if last_index_of(s, '/') <= 0 {
        None
    } else {
        Some(s.take(last_index_of(s, '/')))
    }
}

/// The prefix that every descendant of `s` starts with: `s` followed by a
/// separator, unless `s` already ends with one.
pub open spec fn dir_string(s: Seq<char>) -> Seq<char> {
    if s.len() > 0 && s.last() == '/' {
        s
    } else {
        s.push('/')
    }
}

/// `p` is a prefix of `s`.
pub open spec fn starts_with(s: Seq<char>, p: Seq<char>) -> bool {
    p.len() <= s.len() && s.take(p.len() as int) == p
}

proof fn lemma_last_index_of(s: Seq<char>, c: char)
    ensures
        -1 <= last_index_of(s, c) < s.len(),
        last_index_of(s, c) >= 0 ==> s[last_index_of(s, c)] == c,
        forall|k: int| last_index_of(s, c) < k < s.len() ==> s[k] != c,
    decreases s.len(),
{
    if s.len() > 0 && s.last() != c {
        let d = s.drop_last();
        lemma_last_index_of(d, c);
        assert forall|k: int| last_index_of(s, c) < k < s.len() implies s[k] != c by {
            if k < d.len() {
                assert(s[k] == d[k]);
            }
        }
    }
}

proof fn lemma_collapse_shape(s: Seq<char>)
    requires
        lowers_cleanly(s),
    ensures
        collapse(s).len() >= 1,
        collapse(s)[0] == '/',
        forall|i: int| 0 <= i < collapse(s).len() ==> #[trigger] collapse(s)[i] != '\\',
        forall|i: int|
            1 <= i < collapse(s).len() && #[trigger] collapse(s)[i] == '/' ==> collapse(s)[i - 1]
                != '/',
    decreases s.len(),
{
    if s.len() > 0 {
        let d = s.drop_last();
        assert forall|i: int, j: int|
            0 <= i < d.len() && !is_separator(d[i]) && 0 <= j < lower_of(d[i]).len() implies !is_separator(
            #[trigger] lower_of(d[i])[j],
        ) by {
            assert(d[i] == s[i]);
        }
        lemma_collapse_shape(d);
        let p = collapse(d);
        let r = collapse(s);
        let c = s.last();
        if !is_separator(c) {
            let l = lower_of(c);
            assert(r == p + l);
            assert forall|j: int| 0 <= j < l.len() implies !is_separator(#[trigger] l[j]) by {
                assert(s[s.len() - 1] == c);
            }
            assert forall|i: int| 0 <= i < r.len() implies #[trigger] r[i] != '\\' by {
                if i >= p.len() {
                    assert(r[i] == l[i - p.len()]);
                } else {
                    assert(r[i] == p[i]);
                }
            }
            assert forall|i: int| 1 <= i < r.len() && #[trigger] r[i] == '/' implies r[i - 1] != '/' by {
                if i >= p.len() {
                    assert(r[i] == l[i - p.len()]);
                } else {
                    assert(r[i] == p[i] && r[i - 1] == p[i - 1]);
                }
            }
        } else {
            assert forall|i: int| 0 <= i < r.len() implies #[trigger] r[i] != '\\' by {
                if i < p.len() {
                    assert(r[i] == p[i]);
                }
            }
            assert forall|i: int| 1 <= i < r.len() && #[trigger] r[i] == '/' implies r[i - 1] != '/' by {
                if i < p.len() {
                    assert(r[i] == p[i] && r[i - 1] == p[i - 1]);
                }
            }
        }
    }
}

proof fn lemma_normalize_is_normalized(s: Seq<char>)
    requires
        lowers_cleanly(s),
    ensures
        is_normalized(normalize(s)),
{
    lemma_collapse_shape(s);
    let t = collapse(s);
    let n = normalize(s);
    if t.len() > 1 && t.last() == '/' {
        assert(n == t.drop_last());
        assert forall|i: int| 0 <= i < n.len() implies #[trigger] n[i] != '\\' by {
            assert(n[i] == t[i]);
        }
        assert forall|i: int| 1 <= i < n.len() && #[trigger] n[i] == '/' implies n[i - 1] != '/' by {
            assert(n[i] == t[i] && n[i - 1] == t[i - 1]);
        }
        if n.len() > 1 {
            assert(t[t.len() - 1] == '/');
            assert(n.last() == t[t.len() - 2]);
        }
    }
}

proof fn lemma_normalized_prefix_fixed(t: Seq<char>, k: int)
    requires
        is_normalized(t),
        lowercase_stable(t),
        1 <= k <= t.len(),
    ensures
        collapse(t.take(k)) == t.take(k),
    decreases k,
{
    let tk = t.take(k);
    assert(tk.drop_last() =~= t.take(k - 1));
    if k == 1 {
        assert(collapse(t.take(0)) == seq!['/']);
        assert(tk =~= seq!['/']);
    } else {
        lemma_normalized_prefix_fixed(t, k - 1);
        let c = t[k - 1];
        assert(tk.last() == c);
        if is_separator(c) {
            assert(c == '/');
            assert(t[k - 2] != '/');
            assert(t.take(k - 1).push('/') =~= tk);
        } else {
            assert(lower_of(c) == seq![c]);
            assert(t.take(k - 1) + seq![c] =~= tk);
        }
    }
}

/// Normalizing a canonical path whose characters are their own lowercase
/// mappings changes nothing.
pub proof fn lemma_normalized_fixed(t: Seq<char>)
    requires
        is_normalized(t),
        lowercase_stable(t),
    ensures
        normalize(t) == t,
{
    lemma_normalized_prefix_fixed(t, t.len() as int);
    assert(t.take(t.len() as int) =~= t);
}

/// Normalization is idempotent: `normalize(normalize(p)) == normalize(p)`.
/// Lowercasing is `char::to_lowercase`, whose documentation does not say
/// that lowercasing twice changes nothing, nor that no letter lowercases to
/// a slash; both are asked of the characters involved.
pub proof fn lemma_normalize_idempotent(s: Seq<char>)
    requires
        lowers_cleanly(s),
        lowercase_stable(normalize(s)),
    ensures
        normalize(normalize(s)) == normalize(s),
{
    lemma_normalize_is_normalized(s);
    lemma_normalized_fixed(normalize(s));
}

/// The characters of `s`, one per element.
pub(crate) fn char_vec(s: &str) -> (r: Vec<char>)
    ensures
        r@ == s@,
{
    let mut v: Vec<char> = Vec::new();
    for c in it: s.chars()
        invariant
            v@ == it.seq().take(it.index() as int),
    {
        v.push(c);
    }
    proof {
        assert(v@ =~= s@);
    }
    v
}

/// A string holding the characters of `v`.
pub(crate) fn string_of(v: &Vec<char>) -> (r: String)
    ensures
        r@ == v@,
{
    let mut s = String::new();
    let mut i: usize = 0;
    while i < v.len()
        invariant
            i <= v.len(),
            s@ == v@.take(i as int),
        decreases v.len() - i,
    {
        push_char(&mut s, v[i]);
        proof {
            assert(v@.take(i as int).push(v@[i as int]) =~= v@.take(i + 1));
        }
        i = i + 1;
    }
    proof {
        assert(v@.take(i as int) =~= v@);
    }
    s
}

/// Position of the last `c` in `v`.
pub(crate) fn rfind_char(v: &Vec<char>, c: char) -> (r: Option<usize>)
    ensures
        match r {
            Some(i) => i == last_index_of(v@, c) && i < v@.len() && i < usize::MAX,
            None => last_index_of(v@, c) == -1,
        },
{
    let mut j = v.len();
    proof {
        assert(v@.take(j as int) =~= v@);
    }
    while j > 0
        invariant
            j <= v.len(),
            last_index_of(v@, c) == last_index_of(v@.take(j as int), c),
        decreases j,
    {
        if v[j - 1] == c {
            return Some(j - 1);
        }
        proof {
            assert(v@.take(j as int).drop_last() =~= v@.take(j - 1));
        }
        j = j - 1;
    }
    None
}

/// `v` begins with the characters of `p`.
pub(crate) fn has_prefix(v: &Vec<char>, p: &Vec<char>) -> (r: bool)
    ensures
        r == starts_with(v@, p@),
{
    if p.len() > v.len() {
        return false;
    }
    let mut i: usize = 0;
    while i < p.len()
        invariant
            p.len() <= v.len(),
            i <= p.len(),
            forall|k: int| 0 <= k < i ==> v@[k] == p@[k],
        decreases p.len() - i,
    {
        if v[i] != p[i] {
            proof {
                assert(v@.take(p.len() as int)[i as int] != p@[i as int]);
            }
            return false;
        }
        i = i + 1;
    }
    proof {
        assert(v@.take(p.len() as int) =~= p@);
    }
    true
}

/// Where the last segment of `v` starts.
fn segment_start(v: &Vec<char>) -> (r: usize)
    ensures
        r == name_start(v@),
        r <= v@.len(),
{
    match rfind_char(v, '/') {
        Some(i) => i + 1,
        None => 0,
    }
}

/// Operations on path values. An implementation supplies the text of a path
/// and its two constructors; everything else is derived from those.
pub trait PathLike: Sized + View<V = Seq<char>> {
    /// The text of the path.
    fn as_str(&self) -> (r: &str)
        ensures
            r@ == self@,
    ;

    /// The text of the path, owned.
    fn to_string(&self) -> (r: String)
        ensures
            r@ == self@,
    ;

    /// A path holding `path` exactly as given, not normalized.
    fn exact(path: &str) -> (r: Self)
        ensures
            r@ == path@,
    ;

    /// The canonical path for the raw text `path`.
    fn normalized(path: &str) -> (r: Self)
        ensures
            r@ == normalize(path@),
    ;

    /// `path` lies below this path.
    fn is_child(&self, path: &Self) -> (r: bool)
        ensures
            r == starts_with(path@, dir_string(self@)),
    {
        let d = self.as_directory_string();
        let dv = char_vec(d.as_str());
        let pv = char_vec(path.as_str());
        has_prefix(&pv, &dv)
    }

    /// The last segment: everything after the last separator.
    fn filename(&self) -> (r: String)
        ensures
            r@ == filename_of(self@),
    {
        let s = self.as_str();
        let v = char_vec(s);
        proof {
            lemma_last_index_of(v@, '/');
        }
        let start = segment_start(&v);
        s.substring_char(start, v.len()).to_owned()
    }

    /// The last segment without its extension. A dot in an earlier segment
    /// never counts.
    fn filename_no_extension(&self) -> (r: &str)
        ensures
            r@ == stem_of(self@),
    {
        let s = self.as_str();
        let v = char_vec(s);
        proof {
            lemma_last_index_of(v@, '/');
            lemma_last_index_of(v@, '.');
        }
        let start = segment_start(&v);
        match rfind_char(&v, '.') {
            Some(d) if d >= start => s.substring_char(start, d),
            _ => s.substring_char(start, v.len()),
        }
    }

    /// What follows the last dot of the last segment, if that segment has one.
    fn extension(&self) -> (r: Option<&str>)
        ensures
            match r {
                Some(e) => extension_of(self@) == Some(e@),
                None => extension_of(self@) is None,
            },
    {
        let s = self.as_str();
        let v = char_vec(s);
        proof {
            lemma_last_index_of(v@, '/');
            lemma_last_index_of(v@, '.');
        }
        let start = segment_start(&v);
        match rfind_char(&v, '.') {
            Some(d) if d >= start => {
                let n = v.len();
                Some(s.substring_char(d + 1, n))
            },
            _ => None,
        }
    }

    /// The text before the last separator; none when the only separator is
    /// the leading one, or when there is no separator.
    fn parent_directory_string(&self) -> (r: Option<String>)
        ensures
            match r {
                Some(p) => parent_of(self@) == Some(p@),
                None => parent_of(self@) is None,
            },
    {
        let s = self.as_str();
        let v = char_vec(s);
        proof {
            lemma_last_index_of(v@, '/');
        }
        match rfind_char(&v, '/') {
            Some(i) if i > 0 => Some(s.substring_char(0, i).to_owned()),
            _ => None,
        }
    }

    /// Length, in characters, of the directory string.
    fn directory_str_len(&self) -> (r: usize)
        requires
            self@.len() < usize::MAX,
        ensures
            r == dir_string(self@).len(),
    {
        let v = char_vec(self.as_str());
        if v.len() > 0 && v[v.len() - 1] == '/' {
            v.len()
        } else {
            v.len() + 1
        }
    }

    /// The prefix shared by everything below this path.
    fn as_directory_string(&self) -> (r: String)
        ensures
            r@ == dir_string(self@),
    {
        let v = char_vec(self.as_str());
        let s = self.to_string();
        if v.len() > 0 && v[v.len() - 1] == '/' {
            s
        } else {
            let mut s = s;
            push_char(&mut s, SEPARATOR);
            s
        }
    }

    /// Same as `as_directory_string`, consuming the path.
    fn to_directory_string(self) -> (r: String)
        ensures
            r@ == dir_string(self@),
    {
        self.as_directory_string()
    }

    /// This path's text followed by `other`, not normalized again.
    fn join(&self, other: &str) -> (r: Self)
        ensures
            r@ == self@ + other@,
    {
        let mut s = self.to_string();
        let v = char_vec(other);
        let mut i: usize = 0;
        while i < v.len()
            invariant
                i <= v.len(),
                v@ == other@,
                s@ == self@ + v@.take(i as int),
            decreases v.len() - i,
        {
            push_char(&mut s, v[i]);
            proof {
                assert(self@ + v@.take(i as int).push(v@[i as int]) =~= self@ + v@.take(i + 1));
            }
            i = i + 1;
        }
        proof {
            assert(v@.take(i as int) =~= v@);
        }
        Self::exact(s.as_str())
    }

    /// Same as `join`, consuming the path.
    fn join_into(self, other: &str) -> (r: Self)
        ensures
            r@ == self@ + other@,
    {
        self.join(other)
    }
}

/// A path: shared, immutable text, canonical when built by `normalized`.
/// Equality, hashing and ordering are those of the text.
#[derive(Debug, Hash, Eq, PartialOrd, Ord)]
pub struct VPath(Arc<String>);

impl View for VPath {
    type V = Seq<char>;

    closed spec fn view(&self) -> Seq<char> {
        self.0@
    }
}

impl PartialEq for VPath {
    fn eq(&self, other: &VPath) -> (r: bool) {
        *self.0 == *other.0
    }
}

impl vstd::std_specs::cmp::PartialEqSpecImpl for VPath {
    open spec fn obeys_eq_spec() -> bool {
        true
    }

    open spec fn eq_spec(&self, other: &VPath) -> bool {
        self@ == other@
    }
}

impl Clone for VPath {
    fn clone(&self) -> (r: VPath)
        ensures
            r@ == self@,
    {
        VPath(share(&self.0))
    }
}

impl std::ops::Deref for VPath {
    type Target = str;

    fn deref(&self) -> &str {
        self.0.as_str()
    }
}

impl AsRef<str> for VPath {
    fn as_ref(&self) -> &str {
        self.0.as_str()
    }
}

impl<'s> From<&'s str> for VPath {
    /// The canonical path for the raw text `value`.
    fn from(value: &'s str) -> (r: VPath)
        ensures
            r@ == normalize(value@),
    {
        VPath::normalized(value)
    }
}

/// The conversion is stated by the contract of `from`; a path cannot be
/// built in spec code, so no spec-level result is given.
impl<'s> vstd::std_specs::convert::FromSpecImpl<&'s str> for VPath {
    open spec fn obeys_from_spec() -> bool {
        false
    }

    closed spec fn from_spec(v: &'s str) -> VPath {
        arbitrary()
    }
}

impl From<String> for VPath {
    /// The canonical path for the raw text `value`.
    fn from(value: String) -> (r: VPath)
        ensures
            r@ == normalize(value@),
    {
        VPath::normalized(value.as_str())
    }
}

/// The conversion is stated by the contract of `from`; a path cannot be
/// built in spec code, so no spec-level result is given.
impl vstd::std_specs::convert::FromSpecImpl<String> for VPath {
    open spec fn obeys_from_spec() -> bool {
        false
    }

    closed spec fn from_spec(v: String) -> VPath {
        arbitrary()
    }
}

impl VPath {
    /// The canonical path, of any path kind, for this path's text.
    pub fn to_path<T: PathLike>(self) -> (r: T)
        ensures
            r@ == normalize(self@),
    {
        T::normalized(self.0.as_str())
    }
}

impl PathLike for VPath {
    fn as_str(&self) -> (r: &str) {
        self.0.as_str()
    }

    fn to_string(&self) -> (r: String) {
        (*self.0).clone()
    }

    fn exact(path: &str) -> (r: VPath) {
        VPath(Arc::new(path.to_owned()))
    }

    fn normalized(path: &str) -> (r: VPath) {
        let mut out: Vec<char> = Vec::new();
        out.push(SEPARATOR);
        for c in it: path.chars()
            invariant
                out@ == collapse(it.seq().take(it.index() as int)),
                out@.len() >= 1,
        {
            proof {
                assert(it.seq().take(it.index() + 1).drop_last() =~= it.seq().take(it.index() as int));
            }
            if c == '/' || c == '\\' {
                if out[out.len() - 1] != SEPARATOR {
                    out.push(SEPARATOR);
                }
            } else {
                let lower = lower_chars(c);
                let ghost start = out@;
                let mut k: usize = 0;
                while k < lower.len()
                    invariant
                        k <= lower@.len(),
                        out@ == start + lower@.take(k as int),
                        start.len() >= 1,
                    decreases lower@.len() - k,
                {
                    out.push(lower[k]);
                    proof {
                        assert(start + lower@.take(k as int).push(lower@[k as int]) =~= start
                            + lower@.take(k + 1));
                    }
                    k = k + 1;
                }
                proof {
                    assert(lower@.take(k as int) =~= lower@);
                }
            }
        }
        proof {
            assert(path@.take(path@.len() as int) =~= path@);
        }
        if out.len() > 1 && out[out.len() - 1] == SEPARATOR {
            out.pop();
        }
        VPath(Arc::new(string_of(&out)))
    }
}

} // verus!
