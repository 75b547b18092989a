//! Splitting and unescaping of pipe-delimited fields, where `\` makes the
//! next character literal (so `\|` is a pipe inside a field).
use vstd::prelude::*;
use crate::text::push_char;

verus! {

/// The text of a field with escapes removed: a backslash makes the
/// character after it literal; a lone backslash at the end is dropped.
pub open spec fn unescaped(s: Seq<char>) -> Seq<char>
    decreases s.len(),
{
    if s.len() == 0 {
        Seq::empty()
    } else if s[0] == '\\' {
        if s.len() == 1 {
            Seq::empty()
        } else {
            seq![s[1]] + unescaped(s.skip(2))
        }
    } else {
        seq![s[0]] + unescaped(s.skip(1))
    }
}

pub fn unescape_pipe_field(s: &str) -> (out: String)
    ensures
        out@ == unescaped(s@),
{
    let mut out = String::new();
    let mut esc = false;
    assert(Seq::<char>::empty() + s@.skip(0) =~= s@);
    assert(out@ + unescaped(s@) =~= unescaped(s@));
    for ch in it: s.chars()
        invariant
            it.seq() == s@,
            unescaped(s@) == out@ + unescaped(
                (if esc { seq!['\\'] } else { Seq::empty() }) + s@.skip(it.index()),
            ),
    {
        let ghost rest = s@.skip(it.index());
        proof {
            assert(rest.skip(1) =~= s@.skip(it.index() + 1));
        }
        if esc {
            push_char(&mut out, ch);
            esc = false;
            assert((seq!['\\'] + rest).skip(2) =~= rest.skip(1));
        } else if ch == '\\' {
            esc = true;
            assert((seq!['\\'] + rest.skip(1)) =~= rest);
        } else {
            push_char(&mut out, ch);
            assert((Seq::<char>::empty() + rest).skip(1) =~= rest.skip(1));
        }
    }
    proof {
        assert(s@.skip(s@.len() as int) =~= Seq::<char>::empty());
        if esc {
            assert(seq!['\\'] + Seq::<char>::empty() =~= seq!['\\']);
        } else {
            assert(Seq::<char>::empty() + Seq::<char>::empty() =~= Seq::<char>::empty());
        }
    }
    out
}


/// Prepends `p` to the first of a list of fields.
pub open spec fn prepend_first(p: Seq<char>, fs: Seq<Seq<char>>) -> Seq<Seq<char>> {
    fs.update(0, p + fs[0])
}

/// The fields of a pipe-delimited text: each unescaped `|` ends a field,
/// and a backslash makes the character after it part of the field (a lone
/// backslash at the end is dropped). There is always at least one field.
pub open spec fn split_fields(s: Seq<char>) -> Seq<Seq<char>>
    decreases s.len(),
{
    if s.len() == 0 {
        seq![Seq::empty()]
    } else if s[0] == '\\' {
        if s.len() == 1 {
            seq![Seq::empty()]
        } else {
            prepend_first(seq![s[1]], split_fields(s.skip(2)))
        }
    } else if s[0] == '|' {
        seq![Seq::empty()] + split_fields(s.skip(1))
    } else {
        prepend_first(seq![s[0]], split_fields(s.skip(1)))
    }
}

/// The views of a list of strings.
pub open spec fn views(v: Seq<String>) -> Seq<Seq<char>> {
    v.map_values(|x: String| x@)
}

pub proof fn lemma_split_fields_nonempty(s: Seq<char>)
    ensures
        split_fields(s).len() >= 1,
    decreases s.len(),
{
    if s.len() == 0 {
    } else if s[0] == '\\' {
        if s.len() > 1 {
            lemma_split_fields_nonempty(s.skip(2));
        }
    } else if s[0] == '|' {
        lemma_split_fields_nonempty(s.skip(1));
    } else {
        lemma_split_fields_nonempty(s.skip(1));
    }
}

proof fn lemma_prepend_first_twice(a: Seq<char>, b: Seq<char>, fs: Seq<Seq<char>>)
    requires
        fs.len() >= 1,
    ensures
        prepend_first(a, prepend_first(b, fs)) == prepend_first(a + b, fs),
{
    assert(a + (b + fs[0]) =~= (a + b) + fs[0]);
    assert(prepend_first(a, prepend_first(b, fs)) =~= prepend_first(a + b, fs));
}

pub fn split_escaped_pipe(s: &str) -> (out: Vec<String>)
    ensures
        views(out@) == split_fields(s@),
{
    let mut out: Vec<String> = Vec::new();
    let mut cur = String::new();
    let mut esc = false;
    assert(Seq::<char>::empty() + s@.skip(0) =~= s@);
    proof {
        lemma_split_fields_nonempty(s@);
        assert(prepend_first(cur@, split_fields(s@)) =~= split_fields(s@));
        assert(views(out@) + split_fields(s@) =~= split_fields(s@));
    }
    for ch in it: s.chars()
        invariant
            it.seq() == s@,
            split_fields(s@) == views(out@) + prepend_first(
                cur@,
                split_fields((if esc { seq!['\\'] } else { Seq::empty() }) + s@.skip(it.index())),
            ),
    {
        let ghost rest = s@.skip(it.index());
        let ghost old_out = views(out@);
        let ghost old_cur = cur@;
        proof {
            assert(rest.skip(1) =~= s@.skip(it.index() + 1));
            lemma_split_fields_nonempty(rest.skip(1));
            assert(rest.len() >= 1);
            assert(rest[0] == ch);
        }
        if esc {
            push_char(&mut cur, ch);
            esc = false;
            proof {
                assert((seq!['\\'] + rest).skip(2) =~= rest.skip(1));
                assert((seq!['\\'] + rest)[1] == ch);
                lemma_prepend_first_twice(old_cur, seq![ch], split_fields(rest.skip(1)));
                assert(Seq::<char>::empty() + rest.skip(1) =~= rest.skip(1));
                assert(cur@ =~= old_cur + seq![ch]);
                assert(split_fields(seq!['\\'] + rest) == prepend_first(seq![ch], split_fields(rest.skip(1))));
                assert(split_fields(s@) == views(out@) + prepend_first(cur@, split_fields(Seq::<char>::empty() + rest.skip(1))));
            }
        } else if ch == '\\' {
            esc = true;
            proof {
                assert(Seq::<char>::empty() + rest =~= rest);
                assert(seq!['\\'] + rest.skip(1) =~= rest);
                assert(split_fields(s@) == views(out@) + prepend_first(cur@, split_fields(seq!['\\'] + rest.skip(1))));
            }
        } else if ch == '|' {
            let done = cur;
            cur = String::new();
            out.push(done);
            proof {
                assert(Seq::<char>::empty() + rest =~= rest);
                assert(Seq::<char>::empty() + rest.skip(1) =~= rest.skip(1));
                let y = split_fields(rest.skip(1));
                assert(prepend_first(old_cur, seq![Seq::<char>::empty()] + y)
                    =~= seq![old_cur] + y);
                assert(prepend_first(cur@, y) =~= y);
                assert(views(out@) =~= old_out.push(old_cur));
                assert(views(out@) + prepend_first(cur@, y) =~= old_out + (seq![old_cur] + y));
                assert(split_fields(s@) == views(out@) + prepend_first(cur@, split_fields(Seq::<char>::empty() + rest.skip(1))));
            }
        } else {
            push_char(&mut cur, ch);
            proof {
                assert(Seq::<char>::empty() + rest =~= rest);
                assert(Seq::<char>::empty() + rest.skip(1) =~= rest.skip(1));
                lemma_prepend_first_twice(old_cur, seq![ch], split_fields(rest.skip(1)));
                assert(cur@ =~= old_cur + seq![ch]);
                assert(split_fields(rest) == prepend_first(seq![ch], split_fields(rest.skip(1))));
                assert(split_fields(s@) == views(out@) + prepend_first(cur@, split_fields(Seq::<char>::empty() + rest.skip(1))));
            }
        }
    }
    let ghost before = views(out@);
    let last = cur;
    out.push(last);
    proof {
        assert(s@.skip(s@.len() as int) =~= Seq::<char>::empty());
        let tail = (if esc { seq!['\\'] } else { Seq::<char>::empty() }) + Seq::<char>::empty();
        assert(split_fields(tail) =~= seq![Seq::<char>::empty()]) by {
            if esc {
                assert(tail =~= seq!['\\']);
            } else {
                assert(tail =~= Seq::<char>::empty());
            }
        }
        assert(prepend_first(last@, seq![Seq::<char>::empty()]) =~= seq![last@]);
        assert(views(out@) =~= before.push(last@));
        assert(views(out@) =~= before + seq![last@]);
    }
    out
}

/// A field written so that it survives splitting: `|` and `\` get a
/// backslash in front of them.
pub open spec fn escaped(f: Seq<char>) -> Seq<char>
    decreases f.len(),
{
    if f.len() == 0 {
        Seq::empty()
    } else {
        (if f[0] == '|' || f[0] == '\\' {
            seq!['\\', f[0]]
        } else {
            seq![f[0]]
        }) + escaped(f.skip(1))
    }
}

/// Fields escaped and joined with `|`.
pub open spec fn joined(fs: Seq<Seq<char>>) -> Seq<char>
    decreases fs.len(),
{
    if fs.len() == 0 {
        Seq::empty()
    } else if fs.len() == 1 {
        escaped(fs[0])
    } else {
        escaped(fs[0]) + seq!['|'] + joined(fs.skip(1))
    }
}

proof fn lemma_unescaped_prefix(f: Seq<char>, r: Seq<char>)
    ensures
        unescaped(escaped(f) + r) == f + unescaped(r),
    decreases f.len(),
{
    if f.len() == 0 {
        assert(escaped(f) + r =~= r);
        assert(f + unescaped(r) =~= unescaped(r));
    } else {
        let t = f.skip(1);
        lemma_unescaped_prefix(t, r);
        let e = escaped(f) + r;
        if f[0] == '|' || f[0] == '\\' {
            assert(e =~= seq!['\\', f[0]] + (escaped(t) + r));
            assert(e.skip(2) =~= escaped(t) + r);
        } else {
            assert(e =~= seq![f[0]] + (escaped(t) + r));
            assert(e.skip(1) =~= escaped(t) + r);
        }
        assert(f =~= seq![f[0]] + t);
        assert(f + unescaped(r) =~= seq![f[0]] + (t + unescaped(r)));
    }
}

/// Unescaping gives back any field that was escaped.
pub proof fn law_unescape_inverts_escape(f: Seq<char>)
    ensures
        unescaped(escaped(f)) == f,
{
    lemma_unescaped_prefix(f, Seq::empty());
    assert(escaped(f) + Seq::<char>::empty() =~= escaped(f));
    assert(f + unescaped(Seq::<char>::empty()) =~= f);
}

proof fn lemma_split_prefix(f: Seq<char>, r: Seq<char>)
    ensures
        split_fields(escaped(f) + r) == prepend_first(f, split_fields(r)),
    decreases f.len(),
{
    lemma_split_fields_nonempty(r);
    if f.len() == 0 {
        assert(escaped(f) + r =~= r);
        assert(prepend_first(f, split_fields(r)) =~= split_fields(r));
    } else {
        let t = f.skip(1);
        lemma_split_prefix(t, r);
        lemma_prepend_first_twice(seq![f[0]], t, split_fields(r));
        assert(seq![f[0]] + t =~= f);
        let e = escaped(f) + r;
        if f[0] == '|' || f[0] == '\\' {
            assert(e =~= seq!['\\', f[0]] + (escaped(t) + r));
            assert(e.skip(2) =~= escaped(t) + r);
        } else {
            assert(e =~= seq![f[0]] + (escaped(t) + r));
            assert(e.skip(1) =~= escaped(t) + r);
        }
    }
}

/// Splitting a list of escaped, `|`-joined fields gives back that list:
/// a pipe or backslash inside a field never breaks it apart.
pub proof fn law_split_inverts_join(fs: Seq<Seq<char>>)
    requires
        fs.len() >= 1,
    ensures
        split_fields(joined(fs)) == fs,
    decreases fs.len(),
{
    if fs.len() == 1 {
        lemma_split_prefix(fs[0], Seq::empty());
        assert(escaped(fs[0]) + Seq::<char>::empty() =~= escaped(fs[0]));
        assert(prepend_first(fs[0], seq![Seq::<char>::empty()]) =~= fs);
    } else {
        let rest = fs.skip(1);
        law_split_inverts_join(rest);
        let tail = seq!['|'] + joined(rest);
        assert(joined(fs) =~= escaped(fs[0]) + tail);
        lemma_split_prefix(fs[0], tail);
        assert(tail.skip(1) =~= joined(rest));
        assert(split_fields(tail) =~= seq![Seq::<char>::empty()] + rest);
        assert(prepend_first(fs[0], seq![Seq::<char>::empty()] + rest) =~= fs);
    }
}

} // verus!
