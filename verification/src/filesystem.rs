//! Filesystem adapter: read, write, list, create, delete and inspect files
//! under a root directory.
//!
//! Paths are Unix paths held as strings.  Every path a tool names is
//! resolved against the root directory, normalized without touching the
//! filesystem, and refused when it leaves the root.

use vstd::prelude::*;
use vstd::string::*;
use vstd::utf8::*;

use crate::error::{AdapterError, execution_failed, invalid_params, is_execution_failed, is_invalid_params, missing_field_reason};
use crate::json::{JsonNumber, JsonValue, first_absent, get_str, keys_of, require_str, str_field, str_of, uint, value_at};
use crate::text::{
    chars_of, decimal, extend_chars, find, find_from, find_from_exec, join, join_chars, lemma_find_char_from, lemma_find_from,
    lemma_find_shift, occurs_at, same_text, split_on, split_on_exec, string_of, u64_to_decimal,
};
use crate::traits::{
    AdapterType, AuthRequirement, HealthStatus, ParamSchema, SchemaKind, ToolDefinition, bare_schema,
    ensure_connected, is_not_connected_error, is_tool_not_found, params_of, strings_of, tool, tool_not_found,
    tool_shape, views, is_unknown_tool, lists_tool, ParamDoc, param_docs, tool_doc};

verus! {

/// Maximum bytes of a file returned by one read.
pub const MAX_FILE_READ_CHARS: usize = 16000;

// ---------------------------------------------------------------------------
// Paths
// ---------------------------------------------------------------------------

/// Whether a path is absolute (starts with `/`).
pub open spec fn is_absolute(s: Seq<char>) -> bool {
    s.len() > 0 && s[0] == '/'
}

/// The `/`-separated pieces of a path.
pub open spec fn pieces_of(s: Seq<char>) -> Seq<Seq<char>> {
    split_on(s, seq!['/'])
}

/// One step of normalization over the stack of kept components: empty
/// pieces and `.` are dropped; `..` removes a preceding name, and is kept
/// when there is none.
pub open spec fn norm_step(st: Seq<Seq<char>>, piece: Seq<char>) -> Seq<Seq<char>> {
    if piece.len() == 0 || piece == seq!['.'] {
        st
    } else if piece == seq!['.', '.'] {
        if st.len() > 0 && st.last() != seq!['.', '.'] {
            st.drop_last()
        } else {
            st.push(piece)
        }
    } else {
        st.push(piece)
    }
}

/// Normalization of a sequence of pieces.
pub open spec fn norm_fold(pieces: Seq<Seq<char>>) -> Seq<Seq<char>>
    decreases pieces.len(),
{
    if pieces.len() == 0 {
        Seq::empty()
    } else {
        norm_step(norm_fold(pieces.drop_last()), pieces.last())
    }
}

/// A path written from its root flag and components.
pub open spec fn render(root: bool, st: Seq<Seq<char>>) -> Seq<char> {
    (if root {
        seq!['/']
    } else {
        Seq::empty()
    }) + join(st, seq!['/'])
}

/// The normalized form of a path: `.` removed and `..` resolved against
/// the names before it, without touching the filesystem.
pub open spec fn normalized(s: Seq<char>) -> Seq<char> {
    render(is_absolute(s), norm_fold(pieces_of(s)))
}

/// The components of the normalized path, with `/` standing for the root.
pub open spec fn norm_components(s: Seq<char>) -> Seq<Seq<char>> {
    (if is_absolute(s) {
        seq![seq!['/']]
    } else {
        Seq::empty()
    }) + norm_fold(pieces_of(s))
}

/// The pieces that name components: all but empty pieces and `.`.
pub open spec fn kept(pieces: Seq<Seq<char>>) -> Seq<Seq<char>>
    decreases pieces.len(),
{
    if pieces.len() == 0 {
        Seq::empty()
    } else {
        let rest = kept(pieces.drop_last());
        let l = pieces.last();
        if l.len() == 0 || l == seq!['.'] {
            rest
        } else {
            rest.push(l)
        }
    }
}

/// The components of a path as `Path::components` reads it: `/` for the
/// root, `.` for a leading current-directory component, then every
/// non-empty piece other than `.` (`..` included).
pub open spec fn components(s: Seq<char>) -> Seq<Seq<char>> {
    (if is_absolute(s) {
        seq![seq!['/']]
    } else if pieces_of(s)[0] == seq!['.'] {
        seq![seq!['.']]
    } else {
        Seq::empty()
    }) + kept(pieces_of(s))
}

/// `root.join(raw)`: `raw` itself when absolute, otherwise `raw` under
/// `root` with one separator between them.
pub open spec fn joined(root: Seq<char>, raw: Seq<char>) -> Seq<char> {
    if is_absolute(raw) || root.len() == 0 {
        raw
    } else if root.last() == '/' {
        root + raw
    } else {
        root + seq!['/'] + raw
    }
}

/// Whether `a` is a prefix of `b`.
pub open spec fn is_prefix(a: Seq<Seq<char>>, b: Seq<Seq<char>>) -> bool {
    a.len() <= b.len() && b.take(a.len() as int) == a
}

fn is_piece(p: &Vec<char>, c: char, n: usize) -> (r: bool)
    requires
        1 <= n <= 2,
    ensures
        n == 1 ==> r == (p@ == seq![c]),
        n == 2 ==> r == (p@ == seq![c, c]),
{
    if p.len() != n {
        return false;
    }
    let r = p[0] == c && (n == 1 || p[1] == c);
    if r {
        if n == 1 {
            assert(p@ =~= seq![c]);
        } else {
            assert(p@ =~= seq![c, c]);
        }
    }
    r
}

fn same_chars(a: &Vec<char>, b: &Vec<char>) -> (r: bool)
    ensures
        r == (a@ == b@),
{
    if a.len() != b.len() {
        return false;
    }
    let mut i: usize = 0;
    while i < a.len()
        invariant
            i <= a.len() == b.len(),
            forall|k: int| 0 <= k < i ==> a@[k] == b@[k],
        decreases a.len() - i,
    {
        if a[i] != b[i] {
            return false;
        }
        i = i + 1;
    }
    assert(a@ =~= b@);
    true
}

fn path_pieces(v: &Vec<char>) -> (r: Vec<Vec<char>>)
    ensures
        r@.map_values(|w: Vec<char>| w@) == pieces_of(v@),
        r@.len() >= 1,
{
    let sep: [char; 1] = ['/'];
    assert(sep@ =~= seq!['/']);
    let r = split_on_exec(v.as_slice(), &sep);
    proof {
        lemma_split_nonempty(v@, seq!['/']);
    }
    r
}

proof fn lemma_split_nonempty(s: Seq<char>, p: Seq<char>)
    ensures
        split_on(s, p).len() >= 1,
    decreases s.len(),
{
    if p.len() > 0 {
        match find(s, p) {
            Some(i) => if 0 <= i && i + p.len() <= s.len() {
                lemma_split_nonempty(s.skip(i + p.len()), p);
            },
            None => {},
        }
    }
}

/// The root flag and normalized components of a path.
fn normalize_parts(path: &str) -> (r: (bool, Vec<Vec<char>>))
    ensures
        r.0 == is_absolute(path@),
        r.1@.map_values(|w: Vec<char>| w@) == norm_fold(pieces_of(path@)),
{
    let v = chars_of(path);
    let pieces = path_pieces(&v);
    let ghost ps = pieces@.map_values(|w: Vec<char>| w@);
    let mut st: Vec<Vec<char>> = Vec::new();
    let mut i: usize = 0;
    while i < pieces.len()
        invariant
            i <= pieces@.len(),
            ps == pieces@.map_values(|w: Vec<char>| w@),
            st@.map_values(|w: Vec<char>| w@) == norm_fold(ps.take(i as int)),
        decreases pieces.len() - i,
    {
        let ghost before = st@.map_values(|w: Vec<char>| w@);
        assert(ps.take(i + 1).drop_last() =~= ps.take(i as int));
        assert(ps.take(i + 1).last() == pieces@[i as int]@);
        let piece = &pieces[i];
        if piece.len() == 0 || is_piece(piece, '.', 1) {
        } else if is_piece(piece, '.', 2) {
            let pop = if st.len() > 0 {
                !is_piece(&st[st.len() - 1], '.', 2)
            } else {
                false
            };
            if pop {
                st.pop();
                assert(st@.map_values(|w: Vec<char>| w@) =~= before.drop_last());
            } else {
                st.push(piece.clone());
                assert(st@.map_values(|w: Vec<char>| w@) =~= before.push(piece@));
            }
        } else {
            st.push(piece.clone());
            assert(st@.map_values(|w: Vec<char>| w@) =~= before.push(piece@));
        }
        i = i + 1;
    }
    assert(ps.take(pieces@.len() as int) =~= ps);
    let root = v.len() > 0 && v[0] == '/';
    (root, st)
}

// ---------------------------------------------------------------------------
// Normal forms of paths
// ---------------------------------------------------------------------------

/// Whether a stack of components is normalized: no piece is empty, holds a
/// `/` or is `.`, and `..` only stands at the start.
pub open spec fn normal_stack(st: Seq<Seq<char>>) -> bool {
    forall|i: int|
        0 <= i < st.len() ==> {
            &&& (#[trigger] st[i]).len() > 0
            &&& !st[i].contains('/')
            &&& st[i] != seq!['.']
            &&& (st[i] == seq!['.', '.'] ==> forall|j: int| 0 <= j < i ==> st[j] == seq!['.', '.'])
        }
}

proof fn lemma_no_char(s: Seq<char>, c: char)
    requires
        forall|j: int| 0 <= j < s.len() ==> s[j] != c,
    ensures
        !s.contains(c),
{
    if s.contains(c) {
        let j = choose|j: int| 0 <= j < s.len() && s[j] == c;
        assert(s[j] != c);
    }
}

proof fn lemma_split_no_sep(s: Seq<char>, c: char)
    ensures
        forall|i: int| 0 <= i < split_on(s, seq![c]).len() ==> !(#[trigger] split_on(s, seq![c])[i]).contains(c),
    decreases s.len(),
{
    lemma_find_from(s, seq![c], 0);
    let sp = split_on(s, seq![c]);
    match find(s, seq![c]) {
        Some(k) => {
            let t = s.take(k);
            assert forall|j: int| 0 <= j < t.len() implies t[j] != c by {
                assert(!occurs_at(s, seq![c], j));
                if t[j] == c {
                    assert(s.subrange(j, j + 1) =~= seq![c]);
                }
            }
            lemma_no_char(t, c);
            lemma_split_no_sep(s.skip(k + 1), c);
            let rest = split_on(s.skip(k + 1), seq![c]);
            assert(sp == seq![t] + rest);
            assert forall|i: int| 0 <= i < sp.len() implies !(#[trigger] sp[i]).contains(c) by {
                if i > 0 {
                    assert(sp[i] == rest[i - 1]);
                }
            }
        },
        None => {
            assert forall|j: int| 0 <= j < s.len() implies s[j] != c by {
                assert(!occurs_at(s, seq![c], j));
                if s[j] == c {
                    assert(s.subrange(j, j + 1) =~= seq![c]);
                }
            }
            lemma_no_char(s, c);
            assert(sp == seq![s]);
        },
    }
}

proof fn lemma_norm_fold_normal(pieces: Seq<Seq<char>>)
    requires
        forall|i: int| 0 <= i < pieces.len() ==> !(#[trigger] pieces[i]).contains('/'),
    ensures
        normal_stack(norm_fold(pieces)),
    decreases pieces.len(),
{
    if pieces.len() > 0 {
        let p = pieces.drop_last();
        assert forall|i: int| 0 <= i < p.len() implies !(#[trigger] p[i]).contains('/') by {
            assert(p[i] == pieces[i]);
        }
        lemma_norm_fold_normal(p);
        let st = norm_fold(p);
        let x = pieces.last();
        assert(!pieces[pieces.len() - 1].contains('/'));
        let dd = seq!['.', '.'];
        if x.len() == 0 || x == seq!['.'] {
        } else if x == dd {
            if st.len() > 0 && st.last() != dd {
                let r = st.drop_last();
                assert forall|i: int| 0 <= i < r.len() implies {
                    &&& (#[trigger] r[i]).len() > 0
                    &&& !r[i].contains('/')
                    &&& r[i] != seq!['.']
                    &&& (r[i] == dd ==> forall|j: int| 0 <= j < i ==> r[j] == dd)
                } by {
                    assert(r[i] == st[i]);
                    if r[i] == dd {
                        assert forall|j: int| 0 <= j < i implies r[j] == dd by {
                            assert(r[j] == st[j]);
                        }
                    }
                }
            } else {
                if st.len() > 0 {
                    assert(st[st.len() - 1] == dd);
                }
                let r = st.push(x);
                assert forall|i: int| 0 <= i < r.len() implies {
                    &&& (#[trigger] r[i]).len() > 0
                    &&& !r[i].contains('/')
                    &&& r[i] != seq!['.']
                    &&& (r[i] == dd ==> forall|j: int| 0 <= j < i ==> r[j] == dd)
                } by {
                    if i < st.len() {
                        assert(r[i] == st[i]);
                        if r[i] == dd {
                            assert forall|j: int| 0 <= j < i implies r[j] == dd by {
                                assert(r[j] == st[j]);
                            }
                        }
                    } else {
                        assert(r[i] == x);
                        assert forall|j: int| 0 <= j < i implies r[j] == dd by {
                            assert(r[j] == st[j]);
                            assert(st[st.len() - 1] == dd);
                        }
                    }
                }
            }
        } else {
            let r = st.push(x);
            assert forall|i: int| 0 <= i < r.len() implies {
                &&& (#[trigger] r[i]).len() > 0
                &&& !r[i].contains('/')
                &&& r[i] != seq!['.']
                &&& (r[i] == dd ==> forall|j: int| 0 <= j < i ==> r[j] == dd)
            } by {
                if i < st.len() {
                    assert(r[i] == st[i]);
                    if r[i] == dd {
                        assert forall|j: int| 0 <= j < i implies r[j] == dd by {
                            assert(r[j] == st[j]);
                        }
                    }
                } else {
                    assert(r[i] == x);
                }
            }
        }
    }
}

proof fn lemma_norm_fold_fixed(st: Seq<Seq<char>>)
    requires
        normal_stack(st),
    ensures
        norm_fold(st) == st,
    decreases st.len(),
{
    if st.len() > 0 {
        let p = st.drop_last();
        let dd = seq!['.', '.'];
        assert forall|i: int| 0 <= i < p.len() implies {
            &&& (#[trigger] p[i]).len() > 0
            &&& !p[i].contains('/')
            &&& p[i] != seq!['.']
            &&& (p[i] == dd ==> forall|j: int| 0 <= j < i ==> p[j] == dd)
        } by {
            assert(p[i] == st[i]);
            if p[i] == dd {
                assert forall|j: int| 0 <= j < i implies p[j] == dd by {
                    assert(p[j] == st[j]);
                }
            }
        }
        lemma_norm_fold_fixed(p);
        let x = st[st.len() - 1];
        if x == dd && p.len() > 0 {
            assert(st[st.len() - 2] == dd);
        }
        assert(st =~= p.push(x));
    }
}

proof fn lemma_join_front(st: Seq<Seq<char>>, sep: Seq<char>)
    requires
        st.len() >= 2,
    ensures
        join(st, sep) == st[0] + sep + join(st.drop_first(), sep),
    decreases st.len(),
{
    if st.len() == 2 {
        assert(st.drop_last() =~= seq![st[0]]);
        assert(st.drop_first() =~= seq![st[1]]);
        assert(join(st.drop_last(), sep) == st[0]);
        assert(join(st.drop_first(), sep) == st[1]);
        assert(join(st, sep) == join(st.drop_last(), sep) + sep + st.last());
    } else {
        lemma_join_front(st.drop_last(), sep);
        assert(st.drop_last().drop_first() =~= st.drop_first().drop_last());
        assert(st.drop_first().last() == st.last());
        assert(join(st, sep) =~= st[0] + sep + join(st.drop_first(), sep));
    }
}

proof fn lemma_split_join(st: Seq<Seq<char>>)
    requires
        st.len() >= 1,
        forall|i: int| 0 <= i < st.len() ==> !(#[trigger] st[i]).contains('/'),
    ensures
        split_on(join(st, seq!['/']), seq!['/']) == st,
    decreases st.len(),
{
    let h = st[0];
    assert(!st[0].contains('/'));
    assert forall|j: int| 0 <= j < h.len() implies h[j] != '/' by {
        if h[j] == '/' {
            assert(h.contains('/'));
        }
    }
    if st.len() == 1 {
        lemma_find_char_from(h, '/', 0, h.len() as int);
        assert(st =~= seq![h]);
    } else {
        lemma_join_front(st, seq!['/']);
        let rest = st.drop_first();
        assert forall|i: int| 0 <= i < rest.len() implies !(#[trigger] rest[i]).contains('/') by {
            assert(rest[i] == st[i + 1]);
        }
        lemma_split_join(rest);
        let s = join(st, seq!['/']);
        let n = h.len() as int;
        assert forall|j: int| 0 <= j < n implies s[j] != '/' by {
            assert(s[j] == h[j]);
        }
        assert(s[n] == '/');
        lemma_find_char_from(s, '/', 0, n);
        assert(s.take(n) =~= h);
        assert(s.skip(n + 1) =~= join(rest, seq!['/']));
        assert(st =~= seq![h] + rest);
    }
}

proof fn lemma_norm_fold_one_empty()
    ensures
        norm_fold(seq![Seq::<char>::empty()]) == Seq::<Seq<char>>::empty(),
{
    let e = Seq::<char>::empty();
    assert(seq![e].drop_last() =~= Seq::<Seq<char>>::empty());
    assert(norm_fold(Seq::<Seq<char>>::empty()) == Seq::<Seq<char>>::empty());
    assert(seq![e].last() == e);
    assert(norm_fold(seq![e]) == norm_step(norm_fold(seq![e].drop_last()), e));
}

proof fn lemma_norm_fold_skip_empty(p: Seq<Seq<char>>)
    ensures
        norm_fold(seq![Seq::<char>::empty()] + p) == norm_fold(p),
    decreases p.len(),
{
    let e = Seq::<char>::empty();
    if p.len() == 0 {
        assert(seq![e] + p =~= seq![e]);
        lemma_norm_fold_one_empty();
    } else {
        lemma_norm_fold_skip_empty(p.drop_last());
        assert((seq![e] + p).drop_last() =~= seq![e] + p.drop_last());
        assert((seq![e] + p).last() == p.last());
    }
}

proof fn lemma_renormalize(abs: bool, st: Seq<Seq<char>>)
    requires
        normal_stack(st),
    ensures
        is_absolute(render(abs, st)) == abs,
        norm_fold(pieces_of(render(abs, st))) == st,
{
    lemma_norm_fold_fixed(st);
    let j = join(st, seq!['/']);
    let r = render(abs, st);
    let e = Seq::<char>::empty();
    lemma_find_char_from(e, '/', 0, 0);
    assert(split_on(e, seq!['/']) == seq![e]);
    lemma_norm_fold_one_empty();
    if abs {
        assert(r == seq!['/'] + j);
        lemma_find_char_from(r, '/', 0, 0);
        assert(r.take(0) =~= e);
        assert(r.skip(1) =~= j);
    }
    if st.len() == 0 {
        assert(j == e);
        if abs {
            assert(pieces_of(r) == seq![e] + seq![e]);
            lemma_norm_fold_skip_empty(seq![e]);
        } else {
            assert(r =~= e);
        }
    } else {
        assert forall|i: int| 0 <= i < st.len() implies !(#[trigger] st[i]).contains('/') by {}
        lemma_split_join(st);
        if abs {
            assert(pieces_of(r) == seq![e] + st);
            lemma_norm_fold_skip_empty(st);
        } else {
            assert(r =~= j);
            assert(st[0].len() > 0 && !st[0].contains('/'));
            if st.len() >= 2 {
                lemma_join_front(st, seq!['/']);
            }
            assert(j[0] == st[0][0]);
            if st[0][0] == '/' {
                assert(st[0].contains('/'));
            }
        }
    }
}

proof fn lemma_norm_fold_kept(pieces: Seq<Seq<char>>)
    requires
        forall|i: int| 0 <= i < pieces.len() ==> #[trigger] pieces[i] != seq!['.', '.'],
    ensures
        norm_fold(pieces) == kept(pieces),
    decreases pieces.len(),
{
    if pieces.len() > 0 {
        let p = pieces.drop_last();
        assert forall|i: int| 0 <= i < p.len() implies #[trigger] p[i] != seq!['.', '.'] by {
            assert(p[i] == pieces[i]);
        }
        lemma_norm_fold_kept(p);
        assert(pieces[pieces.len() - 1] != seq!['.', '.']);
    }
}

/// The shape of a normalized path: its components are none empty, none
/// `.`, none holding `/`, and `..` only at the start; and when the path
/// has no `..`, they are its own components without the empty ones and
/// `.`.
pub proof fn law_normalized_shape(s: Seq<char>)
    ensures
        normal_stack(norm_fold(pieces_of(s))),
        (forall|i: int| 0 <= i < pieces_of(s).len() ==> #[trigger] pieces_of(s)[i] != seq!['.', '.'])
            ==> norm_fold(pieces_of(s)) == kept(pieces_of(s)),
{
    lemma_split_no_sep(s, '/');
    lemma_norm_fold_normal(pieces_of(s));
    if forall|i: int| 0 <= i < pieces_of(s).len() ==> #[trigger] pieces_of(s)[i] != seq!['.', '.'] {
        lemma_norm_fold_kept(pieces_of(s));
    }
}

/// Normalizing a path twice gives what normalizing once gives, and the
/// normalized path has the same components as the path it came from.
pub proof fn law_normalize_idempotent(s: Seq<char>)
    ensures
        normalized(normalized(s)) == normalized(s),
        norm_components(normalized(s)) == norm_components(s),
{
    lemma_split_no_sep(s, '/');
    lemma_norm_fold_normal(pieces_of(s));
    lemma_renormalize(is_absolute(s), norm_fold(pieces_of(s)));
}

/// Normalizes a path: removes `.` components and resolves `..` against the
/// names before it, without touching the filesystem.
pub fn normalize_path(path: &str) -> (r: String)
    ensures
        r@ == normalized(path@),
{
    let (root, st) = normalize_parts(path);
    let mut out: Vec<char> = Vec::new();
    if root {
        out.push('/');
    }
    let sep: [char; 1] = ['/'];
    assert(sep@ =~= seq!['/']);
    let body = join_chars(st.as_slice(), &sep);
    extend_chars(&mut out, body.as_slice());
    assert(out@ =~= normalized(path@));
    string_of(out.as_slice())
}

/// The components of a path, as `Path::components` reads them.
fn path_components(path: &str) -> (r: Vec<Vec<char>>)
    ensures
        r@.map_values(|w: Vec<char>| w@) == components(path@),
{
    let v = chars_of(path);
    let pieces = path_pieces(&v);
    let ghost ps = pieces@.map_values(|w: Vec<char>| w@);
    let mut out: Vec<Vec<char>> = Vec::new();
    if v.len() > 0 && v[0] == '/' {
        let w: Vec<char> = vec!['/'];
        assert(w@ =~= seq!['/']);
        out.push(w);
        assert(out@.map_values(|w: Vec<char>| w@) =~= seq![seq!['/']]);
    } else if is_piece(&pieces[0], '.', 1) {
        let w: Vec<char> = vec!['.'];
        assert(w@ =~= seq!['.']);
        out.push(w);
        assert(out@.map_values(|w: Vec<char>| w@) =~= seq![seq!['.']]);
    } else {
        assert(out@.map_values(|w: Vec<char>| w@) =~= Seq::<Seq<char>>::empty());
    }
    let ghost head = out@.map_values(|w: Vec<char>| w@);
    let mut i: usize = 0;
    while i < pieces.len()
        invariant
            i <= pieces@.len(),
            ps == pieces@.map_values(|w: Vec<char>| w@),
            out@.map_values(|w: Vec<char>| w@) == head + kept(ps.take(i as int)),
        decreases pieces.len() - i,
    {
        let ghost before = out@.map_values(|w: Vec<char>| w@);
        assert(ps.take(i + 1).drop_last() =~= ps.take(i as int));
        assert(ps.take(i + 1).last() == pieces@[i as int]@);
        let piece = &pieces[i];
        if !(piece.len() == 0 || is_piece(piece, '.', 1)) {
            out.push(piece.clone());
            assert(out@.map_values(|w: Vec<char>| w@) =~= before.push(piece@));
        }
        i = i + 1;
    }
    assert(ps.take(pieces@.len() as int) =~= ps);
    assert(out@.map_values(|w: Vec<char>| w@) =~= components(path@));
    out
}

/// `root.join(raw)` for string paths.
pub fn join_path(root: &str, raw: &str) -> (r: String)
    ensures
        r@ == joined(root@, raw@),
{
    let rv = chars_of(root);
    let xv = chars_of(raw);
    if (xv.len() > 0 && xv[0] == '/') || rv.len() == 0 {
        return String::from_str(raw);
    }
    let mut s = String::from_str(root);
    if rv[rv.len() - 1] != '/' {
        s.append("/");
        proof {
            reveal_strlit("/");
        }
    }
    s.append(raw);
    assert(s@ =~= joined(root@, raw@));
    s
}

/// Whether the components `a` are a prefix of the components `b`.
fn components_prefix(a: &Vec<Vec<char>>, b: &Vec<Vec<char>>) -> (r: bool)
    ensures
        r == is_prefix(a@.map_values(|w: Vec<char>| w@), b@.map_values(|w: Vec<char>| w@)),
{
    let ghost av = a@.map_values(|w: Vec<char>| w@);
    let ghost bv = b@.map_values(|w: Vec<char>| w@);
    if a.len() > b.len() {
        return false;
    }
    let mut i: usize = 0;
    while i < a.len()
        invariant
            i <= a@.len() <= b@.len(),
            av == a@.map_values(|w: Vec<char>| w@),
            bv == b@.map_values(|w: Vec<char>| w@),
            forall|k: int| 0 <= k < i ==> av[k] == bv[k],
        decreases a.len() - i,
    {
        if !same_chars(&a[i], &b[i]) {
            assert(bv.take(av.len() as int)[i as int] != av[i as int]);
            return false;
        }
        i = i + 1;
    }
    assert(bv.take(av.len() as int) =~= av);
    true
}

/// The reason given when a path resolves outside the root directory.
pub open spec fn outside_root_reason(raw: Seq<char>, resolved: Seq<char>, root: Seq<char>) -> Seq<char> {
    "path `"@ + raw + "` resolves to `"@ + resolved + "` which is outside the root directory `"@ + root
        + "`"@
}

/// Filesystem service adapter.
#[derive(Debug)]
pub struct FilesystemAdapter {
    pub id: String,
    /// Root directory for all file operations.
    pub root_dir: String,
    pub connected: bool,
}

/// What `safe_resolve` gives for a path, with `canon_root` the canonical
/// form of the root directory.
pub open spec fn resolve_outcome(root_dir: Seq<char>, raw: Seq<char>, canon_root: Seq<char>, tool: Seq<char>, r: Result<String, AdapterError>) -> bool {
    let cand = joined(root_dir, raw);
    if is_prefix(components(canon_root), norm_components(cand)) {
        r matches Ok(p) && p@ == normalized(cand)
    } else {
        r matches Err(e) && is_invalid_params(e, tool, outside_root_reason(raw, normalized(cand), canon_root))
    }
}

impl FilesystemAdapter {
    /// A new, disconnected adapter rooted at `root_dir`.
    pub fn new(id: &str, root_dir: &str) -> (r: Self)
        ensures
            r.id@ == id@,
            r.root_dir@ == root_dir@,
            !r.connected,
    {
        FilesystemAdapter { id: String::from_str(id), root_dir: String::from_str(root_dir), connected: false }
    }

    /// Resolves a path against the root directory and refuses it when the
    /// normalized result leaves `canon_root` (the canonical root directory,
    /// or the root directory itself when it cannot be canonicalized).
    pub fn safe_resolve(&self, raw_path: &str, canon_root: &str, tool_name: &str) -> (r: Result<String, AdapterError>)
        ensures
            resolve_outcome(self.root_dir@, raw_path@, canon_root@, tool_name@, r),
    {
        let candidate = join_path(self.root_dir.as_str(), raw_path);
        let (root, st) = normalize_parts(candidate.as_str());
        let mut norm: Vec<Vec<char>> = Vec::new();
        if root {
            let w: Vec<char> = vec!['/'];
            assert(w@ =~= seq!['/']);
            norm.push(w);
            assert(norm@.map_values(|w: Vec<char>| w@) =~= seq![seq!['/']]);
        } else {
            assert(norm@.map_values(|w: Vec<char>| w@) =~= Seq::<Seq<char>>::empty());
        }
        let mut i: usize = 0;
        let ghost head = norm@.map_values(|w: Vec<char>| w@);
        while i < st.len()
            invariant
                i <= st@.len(),
                norm@.map_values(|w: Vec<char>| w@) == head + st@.map_values(|w: Vec<char>| w@).take(i as int),
            decreases st.len() - i,
        {
            let ghost before = norm@.map_values(|w: Vec<char>| w@);
            norm.push(st[i].clone());
            assert(norm@.map_values(|w: Vec<char>| w@) =~= before.push(st@[i as int]@));
            assert(st@.map_values(|w: Vec<char>| w@).take(i + 1) =~= st@.map_values(|w: Vec<char>| w@).take(
                i as int,
            ).push(st@[i as int]@));
            i = i + 1;
        }
        assert(st@.map_values(|w: Vec<char>| w@).take(st@.len() as int) =~= st@.map_values(|w: Vec<char>| w@));
        assert(norm@.map_values(|w: Vec<char>| w@) =~= norm_components(candidate@));
        let base = path_components(canon_root);
        let normalized_path = normalize_path(candidate.as_str());
        if !components_prefix(&base, &norm) {
            let mut reason = String::from_str("path `");
            reason.append(raw_path);
            reason.append("` resolves to `");
            reason.append(normalized_path.as_str());
            reason.append("` which is outside the root directory `");
            reason.append(canon_root);
            reason.append("`");
            return Err(invalid_params(tool_name, reason));
        }
        Ok(normalized_path)
    }
}


// ---------------------------------------------------------------------------
// Reading: truncation of long files
// ---------------------------------------------------------------------------

/// The greatest character boundary of `bytes` at or below `limit`.
pub open spec fn boundary_below(bytes: Seq<u8>, limit: int) -> int
    decreases limit,
{
    if limit <= 0 {
        0
    } else if is_char_boundary(bytes, limit) {
        limit
    } else {
        boundary_below(bytes, limit - 1)
    }
}

/// The notice appended to a truncated file.
pub open spec fn truncation_notice(end: nat, total: nat) -> Seq<char> {
    "\n\n[... file truncated at "@ + decimal(end) + " chars ("@ + decimal(total)
        + " total). Use offset param to read more.]"@
}

/// The content returned for a file and whether it was cut: a file of more
/// than [`MAX_FILE_READ_CHARS`] bytes is cut at the last character boundary
/// at or below that limit and followed by a notice.
pub open spec fn read_content(text: Seq<char>) -> (Seq<char>, bool) {
    let bytes = encode_utf8(text);
    if bytes.len() > MAX_FILE_READ_CHARS {
        let end = boundary_below(bytes, MAX_FILE_READ_CHARS as int);
        (decode_utf8(bytes.take(end)) + truncation_notice(end as nat, bytes.len()), true)
    } else {
        (text, false)
    }
}

/// The content of a read file, cut when it is too long.
pub fn truncate_content(raw: &str) -> (r: (String, bool))
    requires
        raw.spec_bytes().len() <= usize::MAX,
    ensures
        (r.0@, r.1) == read_content(raw@),
{
    broadcast use vstd::utf8::group_utf8_lib;

    let total = raw.len();
    if total <= MAX_FILE_READ_CHARS {
        return (String::from_str(raw), false);
    }
    let ghost bytes = raw.spec_bytes();
    let mut end: usize = MAX_FILE_READ_CHARS;
    assert(is_char_boundary(bytes, 0));
    while !raw.is_char_boundary(end)
        invariant
            0 <= end <= MAX_FILE_READ_CHARS,
            bytes == raw.spec_bytes(),
            valid_utf8(bytes),
            is_char_boundary(bytes, 0),
            boundary_below(bytes, MAX_FILE_READ_CHARS as int) == boundary_below(bytes, end as int),
        decreases end,
    {
        end = end - 1;
    }
    let (head, _rest) = raw.split_at(end);
    assert(head.spec_bytes() =~= bytes.take(end as int));
    assert(decode_utf8(encode_utf8(head@)) == head@);
    let mut content = String::from_str(head);
    content.append("\n\n[... file truncated at ");
    let e = u64_to_decimal(end as u64);
    content.append(e.as_str());
    content.append(" chars (");
    let t = u64_to_decimal(total as u64);
    content.append(t.as_str());
    content.append(" total). Use offset param to read more.]");
    (content, true)
}

// ---------------------------------------------------------------------------
// Replacing a unique occurrence
// ---------------------------------------------------------------------------

/// How many times `p` occurs in `s`, counting non-overlapping occurrences
/// from the left (`str::matches(..).count()`); an empty pattern matches at
/// each of the `s.len() + 1` character positions.
pub open spec fn match_count(s: Seq<char>, p: Seq<char>) -> nat
    decreases s.len(),
{
    if p.len() == 0 {
        s.len() + 1
    } else {
        match find(s, p) {
            Some(i) => if 0 <= i && i + p.len() <= s.len() {
                1 + match_count(s.skip(i + p.len()), p)
            } else {
                0
            },
            None => 0,
        }
    }
}

/// `s` with its first occurrence of `p` replaced by `q` (`replacen(p, q, 1)`).
pub open spec fn replace_first(s: Seq<char>, p: Seq<char>, q: Seq<char>) -> Seq<char> {
    match find(s, p) {
        Some(i) => s.take(i) + q + s.skip(i + p.len()),
        None => s,
    }
}

/// Counts the occurrences of `p` in `s`.
pub fn count_matches(s: &str, p: &str) -> (r: u64)
    requires
        s@.len() < u64::MAX,
    ensures
        r == match_count(s@, p@),
{
    let v = chars_of(s);
    let w = chars_of(p);
    if w.len() == 0 {
        return (v.len() as u64) + 1;
    }
    let mut count: u64 = 0;
    let mut pos: usize = 0;
    assert(v@.skip(0) =~= v@);
    loop
        invariant
            w@.len() > 0,
            pos <= v@.len(),
            v@ == s@,
            w@ == p@,
            count <= pos,
            v@.len() < u64::MAX,
            count + match_count(v@.skip(pos as int), w@) == match_count(v@, w@),
        decreases v@.len() - pos,
    {
        let found = find_from_exec(v.as_slice(), w.as_slice(), pos);
        proof {
            lemma_find_shift(v@, w@, pos as int);
        }
        match found {
            Some(k) => {
                assert(v@.skip(pos as int).skip(k - pos + w@.len()) =~= v@.skip(k + w@.len()));
                count = count + 1;
                pos = k + w.len();
            },
            None => {
                return count;
            },
        }
    }
}

/// Replaces the first occurrence of `p` in `s` by `q`.
pub fn replace_first_exec(s: &str, p: &str, q: &str) -> (r: String)
    ensures
        r@ == replace_first(s@, p@, q@),
{
    let v = chars_of(s);
    let w = chars_of(p);
    match find_from_exec(v.as_slice(), w.as_slice(), 0) {
        Some(k) => {
            let mut out: Vec<char> = Vec::new();
            let mut i: usize = 0;
            while i < k
                invariant
                    i <= k <= v@.len(),
                    out@ == v@.take(i as int),
                decreases k - i,
            {
                out.push(v[i]);
                assert(v@.take(i + 1) =~= v@.take(i as int).push(v@[i as int]));
                i = i + 1;
            }
            let qv = chars_of(q);
            extend_chars(&mut out, qv.as_slice());
            let mut j: usize = k + w.len();
            let ghost mid = out@;
            while j < v.len()
                invariant
                    k + w@.len() <= j <= v@.len(),
                    out@ == mid + v@.subrange(k + w@.len(), j as int),
                decreases v.len() - j,
            {
                out.push(v[j]);
                assert(v@.subrange(k + w@.len(), j + 1) =~= v@.subrange(k + w@.len(), j as int).push(v@[j as int]));
                j = j + 1;
            }
            assert(out@ =~= replace_first(s@, p@, q@));
            string_of(out.as_slice())
        },
        None => String::from_str(s),
    }
}

/// The reason given when the text to replace does not occur.
pub open spec fn not_found_reason(path: Seq<char>) -> Seq<char> {
    "old_string not found in `"@ + path + "`"@
}

/// The reason given when the text to replace occurs more than once.
pub open spec fn ambiguous_reason(n: nat, path: Seq<char>) -> Seq<char> {
    "old_string matches "@ + decimal(n) + " times in `"@ + path + "` (must be unique)"@
}

/// `fs_str_replace` on a file's content: the new content when `old_string`
/// occurs exactly once, else an error naming `path`.
pub fn str_replace_plan(content: &str, old_string: &str, new_string: &str, path: &str) -> (r: Result<String, AdapterError>)
    requires
        content@.len() < u64::MAX,
    ensures
        match_count(content@, old_string@) == 0 ==> (r matches Err(e) && is_execution_failed(
            e,
            "fs_str_replace"@,
            not_found_reason(path@),
        )),
        match_count(content@, old_string@) > 1 ==> (r matches Err(e) && is_execution_failed(
            e,
            "fs_str_replace"@,
            ambiguous_reason(match_count(content@, old_string@), path@),
        )),
        match_count(content@, old_string@) == 1 ==> (r matches Ok(t) && t@ == replace_first(
            content@,
            old_string@,
            new_string@,
        )),
{
    let n = count_matches(content, old_string);
    if n == 0 {
        let mut reason = String::from_str("old_string not found in `");
        reason.append(path);
        reason.append("`");
        return Err(execution_failed("fs_str_replace", reason));
    }
    if n > 1 {
        let mut reason = String::from_str("old_string matches ");
        let d = u64_to_decimal(n);
        reason.append(d.as_str());
        reason.append(" times in `");
        reason.append(path);
        reason.append("` (must be unique)");
        return Err(execution_failed("fs_str_replace", reason));
    }
    Ok(replace_first_exec(content, old_string, new_string))
}

// ---------------------------------------------------------------------------
// Health, requests and results
// ---------------------------------------------------------------------------

/// The health of the adapter given what the root directory is: `Some(true)`
/// for a directory, `Some(false)` for something else, `None` when it cannot
/// be read.
pub open spec fn fs_health(connected: bool, root_is_dir: Option<bool>) -> HealthStatus {
    if !connected {
        HealthStatus::Unhealthy
    } else {
        match root_is_dir {
            Some(true) => HealthStatus::Healthy,
            Some(false) => HealthStatus::Degraded,
            None => HealthStatus::Unhealthy,
        }
    }
}

/// A checked filesystem tool call, with its path resolved.
#[derive(Debug)]
pub enum FsRequest {
    ReadFile { path: String },
    WriteFile { path: String, content: String },
    ListDirectory { path: String },
    CreateDirectory { path: String },
    Delete { path: String },
    StrReplace { path: String, old_string: String, new_string: String },
    FileInfo { path: String },
}

/// The path a request acts on.
pub open spec fn request_path(q: FsRequest) -> String {
    match q {
        FsRequest::ReadFile { path } => path,
        FsRequest::WriteFile { path, .. } => path,
        FsRequest::ListDirectory { path } => path,
        FsRequest::CreateDirectory { path } => path,
        FsRequest::Delete { path } => path,
        FsRequest::StrReplace { path, .. } => path,
        FsRequest::FileInfo { path } => path,
    }
}

/// A request with its path replaced.
pub open spec fn with_path(q: FsRequest, p: String) -> FsRequest {
    match q {
        FsRequest::ReadFile { .. } => FsRequest::ReadFile { path: p },
        FsRequest::WriteFile { content, .. } => FsRequest::WriteFile { path: p, content },
        FsRequest::ListDirectory { .. } => FsRequest::ListDirectory { path: p },
        FsRequest::CreateDirectory { .. } => FsRequest::CreateDirectory { path: p },
        FsRequest::Delete { .. } => FsRequest::Delete { path: p },
        FsRequest::StrReplace { old_string, new_string, .. } => FsRequest::StrReplace { path: p, old_string, new_string },
        FsRequest::FileInfo { .. } => FsRequest::FileInfo { path: p },
    }
}

/// What a request becomes once the canonical form of its path is known:
/// unchanged when the path does not exist yet (nothing to canonicalize);
/// else acting on the canonical path when that lies under the canonical
/// root, and refused as outside the root when it does not (a link that
/// leads out of the root).
pub open spec fn canonical_outcome(q: FsRequest, canonical: Option<String>, canon_root: Seq<char>, tool: Seq<char>, r: Result<FsRequest, AdapterError>) -> bool {
    match canonical {
        None => r == Ok::<FsRequest, AdapterError>(q),
        Some(c) => if is_prefix(components(canon_root), components(c@)) {
            r == Ok::<FsRequest, AdapterError>(with_path(q, c))
        } else {
            r matches Err(e) && is_invalid_params(e, tool, outside_root_reason(request_path(q)@, c@, canon_root))
        },
    }
}

impl FilesystemAdapter {
    /// Completes a planned request with the canonical form of its path,
    /// which the caller reads from the file system (`None` when the path
    /// does not exist): the tool then acts on the canonicalized absolute
    /// path, which must still lie under the canonical root.
    pub fn canonical_request(&self, q: FsRequest, canonical: Option<String>, canon_root: &str, tool_name: &str) -> (r: Result<FsRequest, AdapterError>)
        ensures
            canonical_outcome(q, canonical, canon_root@, tool_name@, r),
    {
        match canonical {
            None => Ok(q),
            Some(c) => {
                let base = path_components(canon_root);
                let cs = path_components(c.as_str());
                if components_prefix(&base, &cs) {
                    Ok(match q {
                        FsRequest::ReadFile { .. } => FsRequest::ReadFile { path: c },
                        FsRequest::WriteFile { content, .. } => FsRequest::WriteFile { path: c, content },
                        FsRequest::ListDirectory { .. } => FsRequest::ListDirectory { path: c },
                        FsRequest::CreateDirectory { .. } => FsRequest::CreateDirectory { path: c },
                        FsRequest::Delete { .. } => FsRequest::Delete { path: c },
                        FsRequest::StrReplace { old_string, new_string, .. } => FsRequest::StrReplace {
                            path: c,
                            old_string,
                            new_string,
                        },
                        FsRequest::FileInfo { .. } => FsRequest::FileInfo { path: c },
                    })
                } else {
                    let p: &String = match &q {
                        FsRequest::ReadFile { path } => path,
                        FsRequest::WriteFile { path, .. } => path,
                        FsRequest::ListDirectory { path } => path,
                        FsRequest::CreateDirectory { path } => path,
                        FsRequest::Delete { path } => path,
                        FsRequest::StrReplace { path, .. } => path,
                        FsRequest::FileInfo { path } => path,
                    };
                    let mut reason = String::from_str("path `");
                    reason.append(p.as_str());
                    reason.append("` resolves to `");
                    reason.append(c.as_str());
                    reason.append("` which is outside the root directory `");
                    reason.append(canon_root);
                    reason.append("`");
                    Err(invalid_params(tool_name, reason))
                }
            },
        }
    }
}

/// Whether `name` is one of the seven filesystem tools.
pub open spec fn is_fs_tool(name: Seq<char>) -> bool {
    name == "fs_read_file"@ || name == "fs_write_file"@ || name == "fs_list_directory"@ || name
        == "fs_create_directory"@ || name == "fs_delete"@ || name == "fs_str_replace"@ || name
        == "fs_file_info"@
}

/// The string parameters a tool requires, in the order they are checked.
pub open spec fn fs_fields(name: Seq<char>) -> Seq<Seq<char>> {
    if name == "fs_list_directory"@ {
        Seq::empty()
    } else if name == "fs_write_file"@ {
        seq!["path"@, "content"@]
    } else if name == "fs_str_replace"@ {
        seq!["path"@, "old_string"@, "new_string"@]
    } else {
        seq!["path"@]
    }
}

/// The path a tool names: the `path` parameter (for a listing, `.` when absent).
pub open spec fn raw_path_of(params: JsonValue) -> Seq<char> {
    match str_field(params, "path"@) {
        Some(p) => p,
        None => "."@,
    }
}

/// Whether `q` is the request for tool `name` on the resolved path `path`.
pub open spec fn fs_request_fits(name: Seq<char>, params: JsonValue, path: Seq<char>, q: FsRequest) -> bool {
    match q {
        FsRequest::ReadFile { path: p } => name == "fs_read_file"@ && p@ == path,
        FsRequest::WriteFile { path: p, content } => name == "fs_write_file"@ && p@ == path && str_field(
            params,
            "content"@,
        ) == Some(content@),
        FsRequest::ListDirectory { path: p } => name == "fs_list_directory"@ && p@ == path,
        FsRequest::CreateDirectory { path: p } => name == "fs_create_directory"@ && p@ == path,
        FsRequest::Delete { path: p } => name == "fs_delete"@ && p@ == path,
        FsRequest::StrReplace { path: p, old_string, new_string } => name == "fs_str_replace"@ && p@ == path
            && str_field(params, "old_string"@) == Some(old_string@) && str_field(params, "new_string"@) == Some(
            new_string@,
        ),
        FsRequest::FileInfo { path: p } => name == "fs_file_info"@ && p@ == path,
    }
}

/// What a filesystem tool call gives: the checks in order (connection,
/// tool name, required fields, path), then the request.
pub open spec fn fs_plan_outcome(a: FilesystemAdapter, name: Seq<char>, params: JsonValue, canon_root: Seq<char>, r: Result<FsRequest, AdapterError>) -> bool {
    if !a.connected {
        r matches Err(e) && is_not_connected_error(e, a.id@, name)
    } else if !is_fs_tool(name) {
        r matches Err(e) && is_tool_not_found(e, a.id@, name)
    } else {
        match first_absent(params, fs_fields(name)) {
            Some(k) => r matches Err(e) && is_invalid_params(e, name, missing_field_reason(k)),
            None => {
                let cand = joined(a.root_dir@, raw_path_of(params));
                if is_prefix(components(canon_root), norm_components(cand)) {
                    r matches Ok(q) && fs_request_fits(name, params, normalized(cand), q)
                } else {
                    r matches Err(e) && is_invalid_params(
                        e,
                        name,
                        outside_root_reason(raw_path_of(params), normalized(cand), canon_root),
                    )
                }
            },
        }
    }
}

impl FilesystemAdapter {
    /// The adapter's id.
    pub fn id(&self) -> (r: &str)
        ensures
            r@ == self.id@,
    {
        self.id.as_str()
    }

    /// The adapter's category.
    pub fn adapter_type(&self) -> (r: AdapterType)
        ensures
            r == AdapterType::System,
    {
        AdapterType::System
    }

    /// The adapter needs no credential.
    pub fn required_auth(&self) -> (r: Option<AuthRequirement>)
        ensures
            r is None,
    {
        None
    }

    /// Marks the adapter connected.
    pub fn connect(&mut self) -> (r: Result<(), AdapterError>)
        ensures
            r is Ok,
            final(self).connected,
            final(self).id == old(self).id,
            final(self).root_dir == old(self).root_dir,
    {
        self.connected = true;
        Ok(())
    }

    /// Marks the adapter disconnected.
    pub fn disconnect(&mut self) -> (r: Result<(), AdapterError>)
        ensures
            r is Ok,
            !final(self).connected,
            final(self).id == old(self).id,
            final(self).root_dir == old(self).root_dir,
    {
        self.connected = false;
        Ok(())
    }

    /// The health given what the root directory is (see [`fs_health`]).
    pub fn health_from(&self, root_is_dir: Option<bool>) -> (r: HealthStatus)
        ensures
            r == fs_health(self.connected, root_is_dir),
    {
        if !self.connected {
            return HealthStatus::Unhealthy;
        }
        match root_is_dir {
            Some(true) => HealthStatus::Healthy,
            Some(false) => HealthStatus::Degraded,
            None => HealthStatus::Unhealthy,
        }
    }

    /// The seven filesystem tools.
    pub fn tools(&self) -> (r: Vec<ToolDefinition>)
        ensures
            fs_tool_shapes(r@),
    {
        fs_tool_definitions()
    }

    /// Checks a tool call and resolves its path against the root, with
    /// `canon_root` the canonical root directory.
    pub fn plan_tool(&self, name: &str, params: &JsonValue, canon_root: &str) -> (r: Result<FsRequest, AdapterError>)
        ensures
            fs_plan_outcome(*self, name@, *params, canon_root@, r),
    {
        match ensure_connected(self.connected, self.id.as_str(), name) {
            Ok(()) => {},
            Err(e) => {
                return Err(e);
            },
        }
        let is_read = same_text(name, "fs_read_file");
        let is_write = same_text(name, "fs_write_file");
        let is_list = same_text(name, "fs_list_directory");
        let is_mkdir = same_text(name, "fs_create_directory");
        let is_delete = same_text(name, "fs_delete");
        let is_replace = same_text(name, "fs_str_replace");
        let is_info = same_text(name, "fs_file_info");
        if !(is_read || is_write || is_list || is_mkdir || is_delete || is_replace || is_info) {
            return Err(tool_not_found(self.id.as_str(), name));
        }
        proof {
            reveal_strlit("fs_read_file");
            reveal_strlit("fs_write_file");
            reveal_strlit("fs_list_directory");
            reveal_strlit("fs_create_directory");
            reveal_strlit("fs_delete");
            reveal_strlit("fs_str_replace");
            reveal_strlit("fs_file_info");
            assert("fs_read_file"@.len() == 12 && "fs_write_file"@.len() == 13);
            assert("fs_list_directory"@.len() == 17 && "fs_create_directory"@.len() == 19);
            assert("fs_delete"@.len() == 9 && "fs_str_replace"@.len() == 14 && "fs_file_info"@.len() == 12);
            assert("fs_read_file"@[3] != "fs_file_info"@[3]);
            reveal_with_fuel(first_absent, 4);
            assert(seq!["path"@, "content"@].drop_first() =~= seq!["content"@]);
            assert(seq!["path"@, "old_string"@, "new_string"@].drop_first() =~= seq!["old_string"@, "new_string"@]);
            assert(seq!["old_string"@, "new_string"@].drop_first() =~= seq!["new_string"@]);
            assert(seq!["path"@].drop_first() =~= Seq::<Seq<char>>::empty());
            assert(seq!["content"@].drop_first() =~= Seq::<Seq<char>>::empty());
            assert(seq!["new_string"@].drop_first() =~= Seq::<Seq<char>>::empty());
        }
        let raw = if is_list {
            match get_str(params, "path") {
                Some(p) => p,
                None => String::from_str("."),
            }
        } else {
            match require_str(params, "path", name) {
                Ok(p) => p,
                Err(e) => {
                    return Err(e);
                },
            }
        };
        let mut content = String::new();
        let mut old_string = String::new();
        let mut new_string = String::new();
        if is_write {
            content = match require_str(params, "content", name) {
                Ok(s) => s,
                Err(e) => {
                    return Err(e);
                },
            };
        }
        if is_replace {
            old_string = match require_str(params, "old_string", name) {
                Ok(s) => s,
                Err(e) => {
                    return Err(e);
                },
            };
            new_string = match require_str(params, "new_string", name) {
                Ok(s) => s,
                Err(e) => {
                    return Err(e);
                },
            };
        }
        let path = match self.safe_resolve(raw.as_str(), canon_root, name) {
            Ok(p) => p,
            Err(e) => {
                return Err(e);
            },
        };
        if is_read {
            Ok(FsRequest::ReadFile { path })
        } else if is_write {
            Ok(FsRequest::WriteFile { path, content })
        } else if is_list {
            Ok(FsRequest::ListDirectory { path })
        } else if is_mkdir {
            Ok(FsRequest::CreateDirectory { path })
        } else if is_delete {
            Ok(FsRequest::Delete { path })
        } else if is_replace {
            Ok(FsRequest::StrReplace { path, old_string, new_string })
        } else {
            Ok(FsRequest::FileInfo { path })
        }
    }
}

/// The result of `fs_read_file`: `{path, content, size_bytes, truncated}`.
pub fn read_file_result(path: &str, raw: &str) -> (j: JsonValue)
    requires
        raw.spec_bytes().len() <= usize::MAX,
    ensures
        keys_of(j) == seq!["path"@, "content"@, "size_bytes"@, "truncated"@],
        str_of(value_at(j, 0)) == Some(path@),
        str_of(value_at(j, 1)) == Some(read_content(raw@).0),
        value_at(j, 2) == uint(raw.spec_bytes().len() as u64),
        value_at(j, 3) == JsonValue::Bool(read_content(raw@).1),
{
    let (content, truncated) = truncate_content(raw);
    let mut es: Vec<(String, JsonValue)> = Vec::new();
    es.push((String::from_str("path"), JsonValue::from_str_value(path)));
    es.push((String::from_str("content"), JsonValue::Str(content)));
    es.push((String::from_str("size_bytes"), JsonValue::Number(JsonNumber::PosInt(raw.len() as u64))));
    es.push((String::from_str("truncated"), JsonValue::Bool(truncated)));
    let j = JsonValue::Object(es);
    assert(keys_of(j) =~= seq!["path"@, "content"@, "size_bytes"@, "truncated"@]);
    j
}

/// The result of `fs_write_file`: `{path, size_bytes, success: true}`.
pub fn write_file_result(path: &str, size_bytes: u64) -> (j: JsonValue)
    ensures
        keys_of(j) == seq!["path"@, "size_bytes"@, "success"@],
        str_of(value_at(j, 0)) == Some(path@),
        value_at(j, 1) == uint(size_bytes),
        value_at(j, 2) == JsonValue::Bool(true),
{
    let mut es: Vec<(String, JsonValue)> = Vec::new();
    es.push((String::from_str("path"), JsonValue::from_str_value(path)));
    es.push((String::from_str("size_bytes"), JsonValue::Number(JsonNumber::PosInt(size_bytes))));
    es.push((String::from_str("success"), JsonValue::Bool(true)));
    let j = JsonValue::Object(es);
    assert(keys_of(j) =~= seq!["path"@, "size_bytes"@, "success"@]);
    j
}

/// One entry of a directory listing: `{name, is_dir, is_file, size_bytes}`.
pub fn dir_entry_json(name: &str, is_dir: bool, is_file: bool, size_bytes: u64) -> (j: JsonValue)
    ensures
        keys_of(j) == seq!["name"@, "is_dir"@, "is_file"@, "size_bytes"@],
        str_of(value_at(j, 0)) == Some(name@),
        value_at(j, 1) == JsonValue::Bool(is_dir),
        value_at(j, 2) == JsonValue::Bool(is_file),
        value_at(j, 3) == uint(size_bytes),
{
    let mut es: Vec<(String, JsonValue)> = Vec::new();
    es.push((String::from_str("name"), JsonValue::from_str_value(name)));
    es.push((String::from_str("is_dir"), JsonValue::Bool(is_dir)));
    es.push((String::from_str("is_file"), JsonValue::Bool(is_file)));
    es.push((String::from_str("size_bytes"), JsonValue::Number(JsonNumber::PosInt(size_bytes))));
    let j = JsonValue::Object(es);
    assert(keys_of(j) =~= seq!["name"@, "is_dir"@, "is_file"@, "size_bytes"@]);
    j
}

/// The result of `fs_list_directory`: `{path, entries, count}`.
pub fn list_directory_result(path: &str, entries: Vec<JsonValue>) -> (j: JsonValue)
    ensures
        keys_of(j) == seq!["path"@, "entries"@, "count"@],
        str_of(value_at(j, 0)) == Some(path@),
        value_at(j, 1) == JsonValue::Array(entries),
        value_at(j, 2) == uint(entries@.len() as u64),
{
    let n = entries.len() as u64;
    let mut es: Vec<(String, JsonValue)> = Vec::new();
    es.push((String::from_str("path"), JsonValue::from_str_value(path)));
    es.push((String::from_str("entries"), JsonValue::Array(entries)));
    es.push((String::from_str("count"), JsonValue::Number(JsonNumber::PosInt(n))));
    let j = JsonValue::Object(es);
    assert(keys_of(j) =~= seq!["path"@, "entries"@, "count"@]);
    j
}

/// What the filesystem says of a path.
#[derive(Debug)]
pub struct FileFacts {
    pub is_file: bool,
    pub is_dir: bool,
    pub is_symlink: bool,
    pub size_bytes: u64,
    pub readonly: bool,
    /// Modification time in seconds past the epoch, when known.
    pub modified_epoch: Option<u64>,
    /// Creation time in seconds past the epoch, when known.
    pub created_epoch: Option<u64>,
}

/// A time stamp in seconds, or null.
pub open spec fn epoch_json(t: Option<u64>) -> JsonValue {
    match t {
        Some(n) => uint(n),
        None => JsonValue::Null,
    }
}

fn epoch_value(t: Option<u64>) -> (j: JsonValue)
    ensures
        j == epoch_json(t),
{
    match t {
        Some(n) => JsonValue::Number(JsonNumber::PosInt(n)),
        None => JsonValue::Null,
    }
}

/// The result of `fs_file_info`: `{path, is_file, is_dir, is_symlink,
/// size_bytes, readonly, modified_epoch, created_epoch}`.
pub fn file_info_result(path: &str, f: &FileFacts) -> (j: JsonValue)
    ensures
        keys_of(j) == seq![
            "path"@,
            "is_file"@,
            "is_dir"@,
            "is_symlink"@,
            "size_bytes"@,
            "readonly"@,
            "modified_epoch"@,
            "created_epoch"@,
        ],
        str_of(value_at(j, 0)) == Some(path@),
        value_at(j, 1) == JsonValue::Bool(f.is_file),
        value_at(j, 2) == JsonValue::Bool(f.is_dir),
        value_at(j, 3) == JsonValue::Bool(f.is_symlink),
        value_at(j, 4) == uint(f.size_bytes),
        value_at(j, 5) == JsonValue::Bool(f.readonly),
        value_at(j, 6) == epoch_json(f.modified_epoch),
        value_at(j, 7) == epoch_json(f.created_epoch),
{
    let mut es: Vec<(String, JsonValue)> = Vec::new();
    es.push((String::from_str("path"), JsonValue::from_str_value(path)));
    es.push((String::from_str("is_file"), JsonValue::Bool(f.is_file)));
    es.push((String::from_str("is_dir"), JsonValue::Bool(f.is_dir)));
    es.push((String::from_str("is_symlink"), JsonValue::Bool(f.is_symlink)));
    es.push((String::from_str("size_bytes"), JsonValue::Number(JsonNumber::PosInt(f.size_bytes))));
    es.push((String::from_str("readonly"), JsonValue::Bool(f.readonly)));
    es.push((String::from_str("modified_epoch"), epoch_value(f.modified_epoch)));
    es.push((String::from_str("created_epoch"), epoch_value(f.created_epoch)));
    let j = JsonValue::Object(es);
    assert(keys_of(j) =~= seq![
        "path"@,
        "is_file"@,
        "is_dir"@,
        "is_symlink"@,
        "size_bytes"@,
        "readonly"@,
        "modified_epoch"@,
        "created_epoch"@,
    ]);
    j
}

/// The result of `fs_str_replace`: `{path, match_count: 1, success: true}`.
pub fn str_replace_result(path: &str) -> (j: JsonValue)
    ensures
        keys_of(j) == seq!["path"@, "match_count"@, "success"@],
        str_of(value_at(j, 0)) == Some(path@),
        value_at(j, 1) == uint(1),
        value_at(j, 2) == JsonValue::Bool(true),
{
    let mut es: Vec<(String, JsonValue)> = Vec::new();
    es.push((String::from_str("path"), JsonValue::from_str_value(path)));
    es.push((String::from_str("match_count"), JsonValue::Number(JsonNumber::PosInt(1))));
    es.push((String::from_str("success"), JsonValue::Bool(true)));
    let j = JsonValue::Object(es);
    assert(keys_of(j) =~= seq!["path"@, "match_count"@, "success"@]);
    j
}

/// The result of `fs_create_directory` and `fs_delete`: `{path, success: true}`.
pub fn path_success_result(path: &str) -> (j: JsonValue)
    ensures
        keys_of(j) == seq!["path"@, "success"@],
        str_of(value_at(j, 0)) == Some(path@),
        value_at(j, 1) == JsonValue::Bool(true),
{
    let mut es: Vec<(String, JsonValue)> = Vec::new();
    es.push((String::from_str("path"), JsonValue::from_str_value(path)));
    es.push((String::from_str("success"), JsonValue::Bool(true)));
    let j = JsonValue::Object(es);
    assert(keys_of(j) =~= seq!["path"@, "success"@]);
    j
}

/// The seven filesystem tools, in order: names, descriptions, parameters with JSON types
/// and documentation, and required parameters.
pub open spec fn fs_tool_shapes(ts: Seq<ToolDefinition>) -> bool {
    &&& ts.len() == 7
    &&& tool_shape(ts[0], "fs_read_file"@, seq![("path"@, SchemaKind::Str)], Some(seq!["path"@]))
    &&& tool_shape(ts[1], "fs_write_file"@, seq![("path"@, SchemaKind::Str), ("content"@, SchemaKind::Str)], Some(seq!["path"@, "content"@]))
    &&& tool_shape(ts[2], "fs_list_directory"@, seq![("path"@, SchemaKind::Str)], None)
    &&& tool_shape(ts[3], "fs_create_directory"@, seq![("path"@, SchemaKind::Str)], Some(seq!["path"@]))
    &&& tool_shape(ts[4], "fs_delete"@, seq![("path"@, SchemaKind::Str)], Some(seq!["path"@]))
    &&& tool_shape(ts[5], "fs_str_replace"@, seq![("path"@, SchemaKind::Str), ("old_string"@, SchemaKind::Str), ("new_string"@, SchemaKind::Str)], Some(seq!["path"@, "old_string"@, "new_string"@]))
    &&& tool_shape(ts[6], "fs_file_info"@, seq![("path"@, SchemaKind::Str)], Some(seq!["path"@]))
    &&& tool_doc(ts[0], "Read the contents of a file"@, seq![(Some("Path to the file to read"@), Seq::<Seq<char>>::empty(), None, None)])
    &&& tool_doc(ts[1], "Write content to a file, creating it if necessary"@, seq![(Some("Path to the file to write"@), Seq::<Seq<char>>::empty(), None, None), (Some("Content to write"@), Seq::<Seq<char>>::empty(), None, None)])
    &&& tool_doc(ts[2], "List entries in a directory"@, seq![(Some("Directory path (default: root dir)"@), Seq::<Seq<char>>::empty(), None, None)])
    &&& tool_doc(ts[3], "Create a directory (including parents)"@, seq![(Some("Directory path to create"@), Seq::<Seq<char>>::empty(), None, None)])
    &&& tool_doc(ts[4], "Delete a file or directory"@, seq![(Some("Path to delete"@), Seq::<Seq<char>>::empty(), None, None)])
    &&& tool_doc(ts[5], "Replace a unique string in a file. IMPORTANT: Always fs_read_file FIRST to get the exact current content. The old_string must match EXACTLY (whitespace, indentation, newlines). If it fails, re-read the file and try again."@, seq![(Some("Path to the file to edit"@), Seq::<Seq<char>>::empty(), None, None), (Some("Exact string to find (must appear exactly once). ALWAYS read the file first to get exact content."@), Seq::<Seq<char>>::empty(), None, None), (Some("Replacement string"@), Seq::<Seq<char>>::empty(), None, None)])
    &&& tool_doc(ts[6], "Get metadata about a file or directory"@, seq![(Some("Path to inspect"@), Seq::<Seq<char>>::empty(), None, None)])
}

/// Builds the definitions of the seven filesystem tools.
pub fn fs_tool_definitions() -> (r: Vec<ToolDefinition>)
    ensures
        fs_tool_shapes(r@),
{
    let mut ts: Vec<ToolDefinition> = Vec::new();
    let mut s1 = bare_schema(SchemaKind::Object);
    let mut p1: Vec<(String, ParamSchema)> = Vec::new();
    let mut s2 = bare_schema(SchemaKind::Str);
    s2.description = Some(String::from_str("Path to the file to read"));
    p1.push((String::from_str("path"), s2));
    s1.properties = p1;
    s1.has_properties = true;
    s1.required = Some(strings_of(&["path"]));
    ts.push(tool("fs_read_file", "Read the contents of a file", s1));
    let mut s3 = bare_schema(SchemaKind::Object);
    let mut p3: Vec<(String, ParamSchema)> = Vec::new();
    let mut s4 = bare_schema(SchemaKind::Str);
    s4.description = Some(String::from_str("Path to the file to write"));
    p3.push((String::from_str("path"), s4));
    let mut s5 = bare_schema(SchemaKind::Str);
    s5.description = Some(String::from_str("Content to write"));
    p3.push((String::from_str("content"), s5));
    s3.properties = p3;
    s3.has_properties = true;
    s3.required = Some(strings_of(&["path", "content"]));
    ts.push(tool("fs_write_file", "Write content to a file, creating it if necessary", s3));
    let mut s6 = bare_schema(SchemaKind::Object);
    let mut p6: Vec<(String, ParamSchema)> = Vec::new();
    let mut s7 = bare_schema(SchemaKind::Str);
    s7.description = Some(String::from_str("Directory path (default: root dir)"));
    p6.push((String::from_str("path"), s7));
    s6.properties = p6;
    s6.has_properties = true;
    ts.push(tool("fs_list_directory", "List entries in a directory", s6));
    let mut s8 = bare_schema(SchemaKind::Object);
    let mut p8: Vec<(String, ParamSchema)> = Vec::new();
    let mut s9 = bare_schema(SchemaKind::Str);
    s9.description = Some(String::from_str("Directory path to create"));
    p8.push((String::from_str("path"), s9));
    s8.properties = p8;
    s8.has_properties = true;
    s8.required = Some(strings_of(&["path"]));
    ts.push(tool("fs_create_directory", "Create a directory (including parents)", s8));
    let mut s10 = bare_schema(SchemaKind::Object);
    let mut p10: Vec<(String, ParamSchema)> = Vec::new();
    let mut s11 = bare_schema(SchemaKind::Str);
    s11.description = Some(String::from_str("Path to delete"));
    p10.push((String::from_str("path"), s11));
    s10.properties = p10;
    s10.has_properties = true;
    s10.required = Some(strings_of(&["path"]));
    ts.push(tool("fs_delete", "Delete a file or directory", s10));
    let mut s12 = bare_schema(SchemaKind::Object);
    let mut p12: Vec<(String, ParamSchema)> = Vec::new();
    let mut s13 = bare_schema(SchemaKind::Str);
    s13.description = Some(String::from_str("Path to the file to edit"));
    p12.push((String::from_str("path"), s13));
    let mut s14 = bare_schema(SchemaKind::Str);
    s14.description = Some(String::from_str("Exact string to find (must appear exactly once). ALWAYS read the file first to get exact content."));
    p12.push((String::from_str("old_string"), s14));
    let mut s15 = bare_schema(SchemaKind::Str);
    s15.description = Some(String::from_str("Replacement string"));
    p12.push((String::from_str("new_string"), s15));
    s12.properties = p12;
    s12.has_properties = true;
    s12.required = Some(strings_of(&["path", "old_string", "new_string"]));
    ts.push(tool("fs_str_replace", "Replace a unique string in a file. IMPORTANT: Always fs_read_file FIRST to get the exact current content. The old_string must match EXACTLY (whitespace, indentation, newlines). If it fails, re-read the file and try again.", s12));
    let mut s16 = bare_schema(SchemaKind::Object);
    let mut p16: Vec<(String, ParamSchema)> = Vec::new();
    let mut s17 = bare_schema(SchemaKind::Str);
    s17.description = Some(String::from_str("Path to inspect"));
    p16.push((String::from_str("path"), s17));
    s16.properties = p16;
    s16.has_properties = true;
    s16.required = Some(strings_of(&["path"]));
    ts.push(tool("fs_file_info", "Get metadata about a file or directory", s16));
    proof {
        assert(param_docs(ts@[0]) =~~= seq![(Some("Path to the file to read"@), Seq::<Seq<char>>::empty(), None, None)]);
        assert(param_docs(ts@[1]) =~~= seq![(Some("Path to the file to write"@), Seq::<Seq<char>>::empty(), None, None), (Some("Content to write"@), Seq::<Seq<char>>::empty(), None, None)]);
        assert(param_docs(ts@[2]) =~~= seq![(Some("Directory path (default: root dir)"@), Seq::<Seq<char>>::empty(), None, None)]);
        assert(param_docs(ts@[3]) =~~= seq![(Some("Directory path to create"@), Seq::<Seq<char>>::empty(), None, None)]);
        assert(param_docs(ts@[4]) =~~= seq![(Some("Path to delete"@), Seq::<Seq<char>>::empty(), None, None)]);
        assert(param_docs(ts@[5]) =~~= seq![(Some("Path to the file to edit"@), Seq::<Seq<char>>::empty(), None, None), (Some("Exact string to find (must appear exactly once). ALWAYS read the file first to get exact content."@), Seq::<Seq<char>>::empty(), None, None), (Some("Replacement string"@), Seq::<Seq<char>>::empty(), None, None)]);
        assert(param_docs(ts@[6]) =~~= seq![(Some("Path to inspect"@), Seq::<Seq<char>>::empty(), None, None)]);
        assert(params_of(ts@[0]) =~= seq![("path"@, SchemaKind::Str)]);
        assert(views(ts@[0].parameters.required->Some_0@) =~= seq!["path"@]);
        assert(params_of(ts@[1]) =~= seq![("path"@, SchemaKind::Str), ("content"@, SchemaKind::Str)]);
        assert(views(ts@[1].parameters.required->Some_0@) =~= seq!["path"@, "content"@]);
        assert(params_of(ts@[2]) =~= seq![("path"@, SchemaKind::Str)]);
        assert(params_of(ts@[3]) =~= seq![("path"@, SchemaKind::Str)]);
        assert(views(ts@[3].parameters.required->Some_0@) =~= seq!["path"@]);
        assert(params_of(ts@[4]) =~= seq![("path"@, SchemaKind::Str)]);
        assert(views(ts@[4].parameters.required->Some_0@) =~= seq!["path"@]);
        assert(params_of(ts@[5]) =~= seq![("path"@, SchemaKind::Str), ("old_string"@, SchemaKind::Str), ("new_string"@, SchemaKind::Str)]);
        assert(views(ts@[5].parameters.required->Some_0@) =~= seq!["path"@, "old_string"@, "new_string"@]);
        assert(params_of(ts@[6]) =~= seq![("path"@, SchemaKind::Str)]);
        assert(views(ts@[6].parameters.required->Some_0@) =~= seq!["path"@]);
    }
    ts
}


/// The tools the adapter lists are exactly those it executes: once connected, a
/// call is answered "tool not found" exactly when `tools` does not list its
/// name.
pub proof fn law_listed_tools_are_executed(a: FilesystemAdapter, ts: Seq<ToolDefinition>, name: Seq<char>, params: JsonValue, canon_root: Seq<char>, r: Result<FsRequest, AdapterError>)
    requires
        fs_tool_shapes(ts),
        a.connected,
        fs_plan_outcome(a, name, params, canon_root, r),
    ensures
        is_unknown_tool(r) <==> !lists_tool(ts, name),
{
    if name == "fs_read_file"@ {
        assert(ts[0].name@ == name);
    } else if name == "fs_write_file"@ {
        assert(ts[1].name@ == name);
    } else if name == "fs_list_directory"@ {
        assert(ts[2].name@ == name);
    } else if name == "fs_create_directory"@ {
        assert(ts[3].name@ == name);
    } else if name == "fs_delete"@ {
        assert(ts[4].name@ == name);
    } else if name == "fs_str_replace"@ {
        assert(ts[5].name@ == name);
    } else if name == "fs_file_info"@ {
        assert(ts[6].name@ == name);
    }
}


/// A path that `safe_resolve` accepts stays in the root: its components
/// start with those of the canonical root, and it is already normalized,
/// so normalizing it again changes nothing.
pub proof fn law_resolved_path_stays_in_root(root_dir: Seq<char>, raw: Seq<char>, canon_root: Seq<char>, tool: Seq<char>, r: Result<String, AdapterError>)
    requires
        resolve_outcome(root_dir, raw, canon_root, tool, r),
        r is Ok,
    ensures
        r matches Ok(p) && normalized(p@) == p@ && is_prefix(components(canon_root), norm_components(p@)),
{
    law_normalize_idempotent(joined(root_dir, raw));
}

/// Every request acts inside the root: whatever tool is called with whatever
/// parameters, an accepted request acts on a normalized path whose components
/// begin with those of the canonical root; and that path is the tool's `path`
/// parameter (`.` for a listing without one) resolved against the root
/// directory.
pub proof fn law_requests_stay_in_root(a: FilesystemAdapter, name: Seq<char>, params: JsonValue, canon_root: Seq<char>, r: Result<FsRequest, AdapterError>)
    requires
        fs_plan_outcome(a, name, params, canon_root, r),
        r is Ok,
    ensures
        r matches Ok(q) && normalized(request_path(q)@) == request_path(q)@ && is_prefix(
            components(canon_root),
            norm_components(request_path(q)@),
        ) && request_path(q)@ == normalized(joined(a.root_dir@, raw_path_of(params))),
{
    let cand = joined(a.root_dir@, raw_path_of(params));
    law_normalize_idempotent(cand);
}

} // verus!
