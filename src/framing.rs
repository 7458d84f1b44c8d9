use vstd::prelude::*;

verus! {

/// The pieces of `s` between line feeds, in order. There is always at least
/// one piece: text with no line feed is one piece, and a trailing line feed
/// leaves an empty last piece.
pub open spec fn split_newlines(s: Seq<char>) -> Seq<Seq<char>>
    decreases s.len(),
{
    if s.len() == 0 {
        seq![Seq::empty()]
    } else {
        let p = split_newlines(s.drop_last());
        if s.last() == '\n' {
            p.push(Seq::empty())
        } else {
            p.update(p.len() - 1, p.last().push(s.last()))
        }
    }
}

/// The lines framed from one decoded chunk: the pieces between line feeds,
/// without the empty piece that follows a final line feed (or makes up empty text).
pub open spec fn frame_lines(s: Seq<char>) -> Seq<Seq<char>> {
    let p = split_newlines(s);
    if p.last().len() == 0 {
        p.drop_last()
    } else {
        p
    }
}

/// The text of each string of `v`, in order.
pub open spec fn texts(v: Seq<String>) -> Seq<Seq<char>> {
    v.map_values(|l: String| l@)
}

/// Splitting always gives at least one piece.
pub proof fn lemma_split_nonempty(s: Seq<char>)
    ensures
        split_newlines(s).len() >= 1,
    decreases s.len(),
{
    if s.len() > 0 {
        lemma_split_nonempty(s.drop_last());
    }
}

/// Splits decoded text into lines at line feeds.
pub fn split_lines(text: &str) -> (r: Vec<String>)
    ensures
        texts(r@) == frame_lines(text@),
{
    let n = text.unicode_len();
    let mut lines: Vec<String> = Vec::new();
    let mut start: usize = 0;
    let mut i: usize = 0;
    proof {
        assert(text@.subrange(0, 0) =~= Seq::<char>::empty());
        assert(texts(lines@).push(text@.subrange(0, 0)) =~= seq![Seq::<char>::empty()]);
    }
    while i < n
        invariant
            n as nat == text@.len(),
            start <= i <= n,
            texts(lines@).push(text@.subrange(start as int, i as int)) == split_newlines(
                text@.subrange(0, i as int),
            ),
        decreases n - i,
    {
        let c = text.get_char(i);
        proof {
            let t = text@.subrange(0, i + 1);
            assert(t.drop_last() =~= text@.subrange(0, i as int));
            assert(t.last() == c);
            lemma_split_nonempty(t.drop_last());
        }
        if c == '\n' {
            let line = text.substring_char(start, i).to_owned();
            let ghost before = lines@;
            lines.push(line);
            proof {
                assert(text@.subrange(i + 1, i + 1) =~= Seq::<char>::empty());
                assert(texts(lines@) =~= texts(before).push(text@.subrange(start as int, i as int)));
            }
            start = i + 1;
        } else {
            proof {
                assert(text@.subrange(start as int, i + 1) =~= text@.subrange(start as int, i as int).push(c));
            }
        }
        i = i + 1;
    }
    proof {
        assert(text@.subrange(0, n as int) =~= text@);
    }
    if start < n {
        let last = text.substring_char(start, n).to_owned();
        lines.push(last);
        proof {
            assert(texts(lines@) =~= split_newlines(text@));
        }
    } else {
        proof {
            assert(text@.subrange(start as int, n as int) =~= Seq::<char>::empty());
            assert(texts(lines@) =~= split_newlines(text@).drop_last());
        }
    }
    lines
}

} // verus!
