//! Line splitting and joining with the semantics of `str::lines` and `[&str]::join`.
use vstd::prelude::*;
use crate::text::chars_of;

verus! {

/// The pieces of `s` between `'\n'` characters (what `str::split('\n')` yields); always at
/// least one piece.
pub open spec fn split_pieces(s: Seq<char>) -> Seq<Seq<char>>
    decreases s.len(),
{
    if s.len() == 0 {
        seq![Seq::<char>::empty()]
    } else {
        let p = split_pieces(s.drop_last());
        if s.last() == '\n' {
            p.push(Seq::<char>::empty())
        } else {
            p.update(p.len() - 1, p.last().push(s.last()))
        }
    }
}

/// A line ended by `"\r\n"` loses its `'\r'`.
pub open spec fn strip_cr(line: Seq<char>) -> Seq<char> {
    if line.len() > 0 && line.last() == '\r' {
        line.drop_last()
    } else {
        line
    }
}

/// Each line with its trailing `'\r'` removed.
pub open spec fn stripped(ls: Seq<Seq<char>>) -> Seq<Seq<char>> {
    ls.map_values(|l: Seq<char>| strip_cr(l))
}

/// The lines of `s` as `str::lines` yields them: pieces ended by `'\n'` without their
/// `"\r"`, plus the final unterminated piece when it is not empty.
pub open spec fn text_lines(s: Seq<char>) -> Seq<Seq<char>> {
    let p = split_pieces(s);
    let done = stripped(p.drop_last());
    if p.last().len() == 0 {
        done
    } else {
        done.push(p.last())
    }
}

/// Lines joined with `'\n'` between them (what `join("\n")` builds).
pub open spec fn join_lines(ls: Seq<Seq<char>>) -> Seq<char>
    decreases ls.len(),
{
    if ls.len() == 0 {
        Seq::<char>::empty()
    } else if ls.len() == 1 {
        ls[0]
    } else {
        join_lines(ls.drop_last()) + seq!['\n'] + ls.last()
    }
}

/// Lines appended one by one, with `'\n'` put in front of a line only when something has
/// already been written.
pub open spec fn append_lines(ls: Seq<Seq<char>>) -> Seq<char>
    decreases ls.len(),
{
    if ls.len() == 0 {
        Seq::<char>::empty()
    } else {
        let a = append_lines(ls.drop_last());
        if a.len() > 0 {
            a + seq!['\n'] + ls.last()
        } else {
            ls.last()
        }
    }
}

/// The view of a vector of character vectors as a sequence of sequences.
pub open spec fn lines_view(v: Seq<Vec<char>>) -> Seq<Seq<char>> {
    v.map_values(|l: Vec<char>| l@)
}

proof fn lemma_split_pieces_nonempty(s: Seq<char>)
    ensures
        split_pieces(s).len() >= 1,
    decreases s.len(),
{
    if s.len() > 0 {
        lemma_split_pieces_nonempty(s.drop_last());
    }
}

/// No line holds a `'\n'`.
pub open spec fn no_newlines(ls: Seq<Seq<char>>) -> bool {
    forall|i: int, k: int| 0 <= i < ls.len() && 0 <= k < ls[i].len() ==> #[trigger] ls[i][k] != '\n'
}

/// The pieces of a string hold no `'\n'`.
proof fn lemma_split_pieces_have_no_newline(s: Seq<char>)
    ensures
        no_newlines(split_pieces(s)),
    decreases s.len(),
{
    if s.len() > 0 {
        lemma_split_pieces_have_no_newline(s.drop_last());
        lemma_split_pieces_nonempty(s.drop_last());
        let p = split_pieces(s.drop_last());
        if s.last() != '\n' {
            let q = p.update(p.len() - 1, p.last().push(s.last()));
            assert forall|i: int, k: int| 0 <= i < q.len() && 0 <= k < q[i].len() implies #[trigger] q[i][k] != '\n' by {
                if i == p.len() - 1 && k == p.last().len() {
                } else if i == p.len() - 1 {
                    assert(q[i][k] == p[i][k]);
                } else {
                    assert(q[i] == p[i]);
                }
            }
        } else {
            let q = p.push(Seq::<char>::empty());
            assert forall|i: int, k: int| 0 <= i < q.len() && 0 <= k < q[i].len() implies #[trigger] q[i][k] != '\n' by {
                assert(q[i] == p[i]);
            }
        }
    }
}

/// The lines `str::lines` yields hold no `'\n'`.
pub proof fn lemma_text_lines_have_no_newline(s: Seq<char>)
    ensures
        no_newlines(text_lines(s)),
{
    lemma_split_pieces_have_no_newline(s);
    lemma_split_pieces_nonempty(s);
    let p = split_pieces(s);
    let t = text_lines(s);
    assert forall|i: int, k: int| 0 <= i < t.len() && 0 <= k < t[i].len() implies #[trigger] t[i][k] != '\n' by {
        if i < p.len() - 1 {
            assert(t[i] == strip_cr(p[i]));
            if p[i].len() > 0 && p[i].last() == '\r' {
                assert(t[i][k] == p[i][k]);
            }
        } else {
            assert(t[i] == p.last());
        }
    }
}

/// Appending a text without `'\n'` extends the last piece only.
proof fn lemma_split_pieces_append(s: Seq<char>, t: Seq<char>)
    requires
        forall|k: int| 0 <= k < t.len() ==> t[k] != '\n',
    ensures
        split_pieces(s + t) == split_pieces(s).update(split_pieces(s).len() - 1, split_pieces(s).last() + t),
    decreases t.len(),
{
    lemma_split_pieces_nonempty(s);
    if t.len() == 0 {
        assert(s + t =~= s);
        assert(split_pieces(s).last() + t =~= split_pieces(s).last());
        assert(split_pieces(s).update(split_pieces(s).len() - 1, split_pieces(s).last() + t) =~= split_pieces(s));
    } else {
        let t0 = t.drop_last();
        lemma_split_pieces_append(s, t0);
        assert((s + t).drop_last() =~= s + t0);
        assert((s + t).last() == t.last());
        assert(split_pieces(s).last() + t0 + seq![t.last()] =~= split_pieces(s).last() + t);
        let p = split_pieces(s);
        let q = split_pieces(s + t0);
        assert(q.len() == p.len());
        assert(q.last() == p.last() + t0);
        let n = p.len() as int;
        let r1 = q.update(n - 1, q.last().push(t.last()));
        let r2 = p.update(n - 1, p.last() + t);
        assert forall|i: int| 0 <= i < n implies r1[i] == r2[i] by {
            if i == n - 1 {
                assert(q[n - 1] == p.last() + t0);
            } else {
                assert(q[i] == p[i]);
            }
        }
        assert(r1 =~= r2);
    }
}

/// Lines without `'\n'` joined with `'\n'` split back into the same lines.
pub proof fn lemma_split_join(ls: Seq<Seq<char>>)
    requires
        ls.len() > 0,
        no_newlines(ls),
    ensures
        split_pieces(join_lines(ls)) == ls,
    decreases ls.len(),
{
    let last = ls.last();
    assert forall|k: int| 0 <= k < last.len() implies last[k] != '\n' by {
        assert(ls[ls.len() - 1][k] != '\n');
    }
    if ls.len() == 1 {
        lemma_split_pieces_append(Seq::<char>::empty(), ls[0]);
        assert(Seq::<char>::empty() + ls[0] =~= ls[0]);
        assert(split_pieces(Seq::<char>::empty()) =~= seq![Seq::<char>::empty()]);
        assert(Seq::<char>::empty() + ls[0] =~= ls[0]);
        assert(seq![Seq::<char>::empty()].update(0, Seq::<char>::empty() + ls[0]) =~= ls);
    } else {
        let front = ls.drop_last();
        assert forall|i: int, k: int| 0 <= i < front.len() && 0 <= k < front[i].len() implies #[trigger] front[i][k] != '\n' by {
            assert(front[i] == ls[i]);
        }
        lemma_split_join(front);
        let a = join_lines(front) + seq!['\n'];
        assert(a.drop_last() =~= join_lines(front));
        assert(split_pieces(a) == front.push(Seq::<char>::empty()));
        lemma_split_pieces_append(a, last);
        assert(join_lines(ls) =~= a + last);
        assert(Seq::<char>::empty() + last =~= last);
        assert(front.push(Seq::<char>::empty()).update(front.len() as int, Seq::<char>::empty() + last) =~= ls);
    }
}

/// With a first line that is not empty, appending lines one by one is joining them.
pub proof fn lemma_append_is_join(ls: Seq<Seq<char>>)
    requires
        ls.len() > 0 ==> ls[0].len() > 0,
    ensures
        append_lines(ls) == join_lines(ls),
        ls.len() > 0 ==> append_lines(ls).len() > 0,
    decreases ls.len(),
{
    if ls.len() == 1 {
        assert(ls.drop_last().len() == 0);
        assert(append_lines(ls.drop_last()) == Seq::<char>::empty());
        assert(append_lines(ls) == ls[0]);
    } else if ls.len() > 1 {
        lemma_append_is_join(ls.drop_last());
        assert(ls.drop_last()[0] == ls[0]);
    }
}

/// The lines of a string slice, as `str::lines` yields them.
pub fn lines_of(s: &str) -> (ls: Vec<Vec<char>>)
    ensures
        lines_view(ls@) == text_lines(s@),
{
    let v = chars_of(s);
    let mut done: Vec<Vec<char>> = Vec::new();
    let mut cur: Vec<char> = Vec::new();
    let ghost mut raw: Seq<Seq<char>> = Seq::empty();
    let mut i: usize = 0;
    proof {
        assert(v@.take(0) =~= Seq::<char>::empty());
        assert(split_pieces(Seq::<char>::empty()) =~= raw.push(cur@));
    }
    while i < v.len()
        invariant
            i <= v.len(),
            split_pieces(v@.take(i as int)) == raw.push(cur@),
            lines_view(done@) == stripped(raw),
        decreases v.len() - i,
    {
        let c = v[i];
        proof {
            assert(v@.take(i + 1).drop_last() =~= v@.take(i as int));
            assert(v@.take(i + 1).last() == c);
            lemma_split_pieces_nonempty(v@.take(i as int));
        }
        if c == '\n' {
            let ghost piece = cur@;
            let mut line = cur;
            if line.len() > 0 && line[line.len() - 1] == '\r' {
                line.pop();
                proof {
                    assert(line@ =~= strip_cr(piece));
                }
            }
            proof {
                assert(line@ == strip_cr(piece));
            }
            let ghost old_done = done@;
            let ghost line_copy = line;
            let ghost old_raw = raw;
            done.push(line);
            cur = Vec::new();
            proof {
                raw = raw.push(piece);
                assert(lines_view(old_done) == stripped(old_raw));
                assert(lines_view(old_done).len() == old_done.len());
                assert(stripped(old_raw).len() == old_raw.len());
                assert(done@ == old_done.push(line_copy));
                assert(done@.len() == raw.len());
                assert forall|k: int| 0 <= k < done@.len() implies lines_view(done@)[k]
                    == stripped(raw)[k] by {
                    if k < old_done.len() {
                        assert(done@[k] == old_done[k]);
                        assert(lines_view(old_done)[k] == old_done[k]@);
                        assert(stripped(old_raw)[k] == strip_cr(old_raw[k]));
                        assert(raw[k] == old_raw[k]);
                    } else {
                        assert(done@[k] == line_copy);
                        assert(raw[k] == piece);
                    }
                }
                assert(split_pieces(v@.take(i + 1)) =~= raw.push(cur@));
                assert(lines_view(done@) =~= stripped(raw));
            }
        } else {
            cur.push(c);
            proof {
                assert(split_pieces(v@.take(i + 1)) =~= raw.push(cur@));
            }
        }
        i = i + 1;
    }
    proof {
        assert(v@.take(v.len() as int) =~= s@);
        assert(split_pieces(s@).drop_last() =~= raw);
    }
    if cur.len() > 0 {
        done.push(cur);
        proof {
            assert(lines_view(done@) =~= text_lines(s@));
        }
    } else {
        proof {
            assert(lines_view(done@) =~= text_lines(s@));
        }
    }
    done
}

/// The characters of `ls[from..]` joined with `'\n'`.
pub fn join_lines_from(ls: &Vec<Vec<char>>, from: usize) -> (out: Vec<char>)
    requires
        from <= ls.len(),
    ensures
        out@ == join_lines(lines_view(ls@).subrange(from as int, ls.len() as int)),
{
    let ghost view = lines_view(ls@);
    let mut out: Vec<char> = Vec::new();
    let mut i: usize = from;
    proof {
        assert(view.subrange(from as int, from as int) =~= Seq::<Seq<char>>::empty());
    }
    while i < ls.len()
        invariant
            from <= i <= ls.len(),
            view == lines_view(ls@),
            out@ == join_lines(view.subrange(from as int, i as int)),
        decreases ls.len() - i,
    {
        let line = &ls[i];
        let ghost before = out@;
        proof {
            assert(view.subrange(from as int, i + 1).drop_last() =~= view.subrange(from as int, i as int));
            assert(view[i as int] == line@);
        }
        if i > from {
            out.push('\n');
        }
        let mut j: usize = 0;
        let ghost mid = out@;
        while j < line.len()
            invariant
                j <= line.len(),
                out@ == mid + line@.take(j as int),
            decreases line.len() - j,
        {
            out.push(line[j]);
            proof {
                assert(line@.take(j + 1) =~= line@.take(j as int).push(line@[j as int]));
            }
            j = j + 1;
        }
        proof {
            assert(line@.take(line.len() as int) =~= line@);
            if i > from {
                assert(out@ =~= join_lines(view.subrange(from as int, i + 1)));
            } else {
                assert(view.subrange(from as int, i + 1) =~= seq![line@]);
                assert(out@ =~= join_lines(view.subrange(from as int, i + 1)));
            }
        }
        i = i + 1;
    }
    out
}

} // verus!
