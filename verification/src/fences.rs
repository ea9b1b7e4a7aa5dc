//! Line-based separation of Markdown code fences from free text.
//!
//! A blob of text is split into lines; a line whose first non-blank
//! characters are three backticks is a fence delimiter and toggles the code
//! state. Lines inside a fence go to the code side, lines outside to the
//! text side, and fence lines themselves (with any language tag they carry)
//! are dropped. An unterminated opening fence attributes the rest to code.

use vstd::prelude::*;
use vstd::string::StrSliceExecFns;
use vstd::string::StringExecFns;
use crate::util::push_char;

verus! {

/// The lines of `s` when split on `\n`, accumulating the current partial
/// line in `cur`; a final line without a terminating newline still counts.
pub open spec fn lines_rec(s: Seq<char>, cur: Seq<char>) -> Seq<Seq<char>>
    decreases s.len(),
{
    if s.len() == 0 {
        if cur.len() == 0 {
            Seq::empty()
        } else {
            seq![cur]
        }
    } else if s[0] == '\n' {
        seq![cur] + lines_rec(s.drop_first(), Seq::empty())
    } else {
        lines_rec(s.drop_first(), cur.push(s[0]))
    }
}

/// The lines of `s`, split on `\n`.
pub open spec fn lines_of(s: Seq<char>) -> Seq<Seq<char>> {
    lines_rec(s, Seq::empty())
}

/// Whether `l` is a fence delimiter: three backticks after any leading
/// blanks, with anything after them (a language tag) ignored.
pub open spec fn is_fence_line(l: Seq<char>) -> bool
    decreases l.len(),
{
    if l.len() == 0 {
        false
    } else if l[0] == ' ' || l[0] == '\t' {
        is_fence_line(l.drop_first())
    } else {
        l.len() >= 3 && l[0] == '`' && l[1] == '`' && l[2] == '`'
    }
}

/// The code state after processing every line of `ls`, starting from `b0`:
/// each fence line toggles it.
pub open spec fn fence_state(ls: Seq<Seq<char>>, b0: bool) -> bool
    decreases ls.len(),
{
    if ls.len() == 0 {
        b0
    } else {
        let prev = fence_state(ls.drop_last(), b0);
        if is_fence_line(ls.last()) {
            !prev
        } else {
            prev
        }
    }
}

/// Every non-fence line of `ls` in order, each tagged with the code state it
/// was read under: `true` for a line inside a fence.
pub open spec fn tagged_lines(ls: Seq<Seq<char>>, b0: bool) -> Seq<(bool, Seq<char>)>
    decreases ls.len(),
{
    if ls.len() == 0 {
        Seq::empty()
    } else {
        let prev = fence_state(ls.drop_last(), b0);
        let pre = tagged_lines(ls.drop_last(), b0);
        if is_fence_line(ls.last()) {
            pre
        } else {
            pre.push((prev, ls.last()))
        }
    }
}

/// The lines of `tl` tagged with `code_side`, in order.
pub open spec fn side_lines(tl: Seq<(bool, Seq<char>)>, code_side: bool) -> Seq<Seq<char>>
    decreases tl.len(),
{
    if tl.len() == 0 {
        Seq::empty()
    } else {
        side_lines(tl.drop_last(), code_side) + if tl.last().0 == code_side {
            seq![tl.last().1]
        } else {
            Seq::empty()
        }
    }
}

/// The lines of `tl` with their tags removed, in order.
pub open spec fn untag(tl: Seq<(bool, Seq<char>)>) -> Seq<Seq<char>>
    decreases tl.len(),
{
    if tl.len() == 0 {
        Seq::empty()
    } else {
        untag(tl.drop_last()).push(tl.last().1)
    }
}

/// The lines of `ls` that are not fence delimiters, in order.
pub open spec fn non_fence_lines(ls: Seq<Seq<char>>) -> Seq<Seq<char>>
    decreases ls.len(),
{
    if ls.len() == 0 {
        Seq::empty()
    } else if is_fence_line(ls.last()) {
        non_fence_lines(ls.drop_last())
    } else {
        non_fence_lines(ls.drop_last()).push(ls.last())
    }
}

/// The text-side lines of `ls`: those read outside a fence.
pub open spec fn text_lines(ls: Seq<Seq<char>>, b0: bool) -> Seq<Seq<char>> {
    side_lines(tagged_lines(ls, b0), false)
}

/// The code-side lines of `ls`: those read inside a fence.
pub open spec fn code_lines(ls: Seq<Seq<char>>, b0: bool) -> Seq<Seq<char>> {
    side_lines(tagged_lines(ls, b0), true)
}

/// The lines of `ls` joined back into one text, each followed by a newline.
pub open spec fn join_nl(ls: Seq<Seq<char>>) -> Seq<char>
    decreases ls.len(),
{
    if ls.len() == 0 {
        Seq::empty()
    } else {
        join_nl(ls.drop_last()) + ls.last() + seq!['\n']
    }
}

/// Code-extraction round trip: the lines the split sends to the text side
/// and to the code side, recombined in their original order, are exactly the
/// original lines minus the fence delimiters (and with them any language
/// tags). This holds for every input, balanced or not.
pub proof fn lemma_fence_round_trip(ls: Seq<Seq<char>>, b0: bool)
    ensures
        untag(tagged_lines(ls, b0)) == non_fence_lines(ls),
    decreases ls.len(),
{
    if ls.len() == 0 {
    } else {
        lemma_fence_round_trip(ls.drop_last(), b0);
        if is_fence_line(ls.last()) {
        } else {
            let pre = tagged_lines(ls.drop_last(), b0);
            let prev = fence_state(ls.drop_last(), b0);
            let whole = pre.push((prev, ls.last()));
            assert(whole.drop_last() =~= pre);
            assert(untag(whole) == untag(pre).push(ls.last()));
        }
    }
}

/// Each non-fence line lands on exactly one side of the split: together the
/// two sides hold every tagged line once.
pub proof fn lemma_split_partition(tl: Seq<(bool, Seq<char>)>)
    ensures
        side_lines(tl, false).len() + side_lines(tl, true).len() == tl.len(),
    decreases tl.len(),
{
    if tl.len() == 0 {
    } else {
        lemma_split_partition(tl.drop_last());
    }
}

/// The character views of a sequence of strings.
pub open spec fn views_of(ls: Seq<String>) -> Seq<Seq<char>> {
    ls.map_values(|l: String| l@)
}

/// Checks whether one line is a fence delimiter.
pub fn fence_line(l: &str) -> (r: bool)
    ensures
        r == is_fence_line(l@),
{
    let n = l.unicode_len();
    let mut i: usize = 0;
    proof {
        assert(l@.skip(0) =~= l@);
    }
    while i < n && (l.get_char(i) == ' ' || l.get_char(i) == '\t')
        invariant
            i <= n,
            n == l@.len(),
            is_fence_line(l@) == is_fence_line(l@.skip(i as int)),
        decreases n - i,
    {
        proof {
            assert(l@.skip(i as int)[0] == l@[i as int]);
            assert(l@.skip(i as int).drop_first() =~= l@.skip(i as int + 1));
        }
        i = i + 1;
    }
    if i == n {
        proof {
            assert(l@.skip(i as int).len() == 0);
        }
        return false;
    }
    proof {
        assert(l@.skip(i as int)[0] == l@[i as int]);
    }
    if n - i < 3 {
        return false;
    }
    proof {
        assert(l@.skip(i as int)[1] == l@[i as int + 1]);
        assert(l@.skip(i as int)[2] == l@[i as int + 2]);
    }
    l.get_char(i) == '`' && l.get_char(i + 1) == '`' && l.get_char(i + 2) == '`'
}

/// Splits a text into its lines.
pub fn split_newlines(s: &str) -> (r: Vec<String>)
    ensures
        views_of(r@) == lines_of(s@),
{
    let n = s.unicode_len();
    let mut out: Vec<String> = Vec::new();
    let mut cur: String = String::new();
    let mut i: usize = 0;
    proof {
        assert(s@.skip(0) =~= s@);
        assert(views_of(out@) =~= Seq::<Seq<char>>::empty());
        assert(views_of(out@) + lines_rec(s@, cur@) =~= lines_rec(s@, Seq::empty()));
    }
    while i < n
        invariant
            i <= n,
            n == s@.len(),
            lines_of(s@) == views_of(out@) + lines_rec(s@.skip(i as int), cur@),
        decreases n - i,
    {
        let c = s.get_char(i);
        proof {
            assert(s@.skip(i as int)[0] == s@[i as int]);
            assert(s@.skip(i as int).drop_first() =~= s@.skip(i as int + 1));
        }
        if c == '\n' {
            let ghost old_out = out@;
            let ghost cur_view = cur@;
            let line = cur;
            cur = String::new();
            out.push(line);
            proof {
                assert(views_of(out@) =~= views_of(old_out).push(cur_view));
                assert(views_of(old_out) + (seq![cur_view] + lines_rec(
                    s@.skip(i as int + 1),
                    Seq::empty(),
                )) =~= views_of(out@) + lines_rec(s@.skip(i as int + 1), Seq::empty()));
            }
        } else {
            push_char(&mut cur, c);
        }
        i = i + 1;
    }
    proof {
        assert(s@.skip(n as int).len() == 0);
    }
    if cur.as_str().unicode_len() > 0 {
        let ghost old_out = out@;
        let ghost cur_view = cur@;
        out.push(cur);
        proof {
            assert(views_of(out@) =~= views_of(old_out).push(cur_view));
            assert(views_of(old_out) + seq![cur_view] =~= views_of(out@));
        }
    } else {
        proof {
            assert(views_of(out@) + Seq::<Seq<char>>::empty() =~= views_of(out@));
        }
    }
    out
}

/// Splits a text into its text-side and code-side content, each returned as
/// its lines rejoined with newlines.
pub fn split_code_text(content: &str) -> (r: (String, String))
    ensures
        r.0@ == join_nl(text_lines(lines_of(content@), false)),
        r.1@ == join_nl(code_lines(lines_of(content@), false)),
{
    let lines = split_newlines(content);
    let ghost lv = views_of(lines@);
    let mut text = String::new();
    let mut code = String::new();
    let mut in_block = false;
    let mut j: usize = 0;
    while j < lines.len()
        invariant
            j <= lines@.len(),
            lv == views_of(lines@),
            lv == lines_of(content@),
            in_block == fence_state(lv.take(j as int), false),
            text@ == join_nl(side_lines(tagged_lines(lv.take(j as int), false), false)),
            code@ == join_nl(side_lines(tagged_lines(lv.take(j as int), false), true)),
        decreases lines@.len() - j,
    {
        proof {
            assert(lv.take(j as int + 1).drop_last() =~= lv.take(j as int));
            assert(lv.take(j as int + 1).last() == lv[j as int]);
            assert(lv[j as int] == lines@[j as int]@);
        }
        let is_fence = fence_line(lines[j].as_str());
        if is_fence {
            in_block = !in_block;
        } else {
            proof {
                let tl = tagged_lines(lv.take(j as int), false);
                let whole = tagged_lines(lv.take(j as int + 1), false);
                assert(whole == tl.push((in_block, lv[j as int])));
                assert(whole.drop_last() =~= tl);
                assert(whole.last() == (in_block, lv[j as int]));
                if in_block {
                    assert(side_lines(whole, true) == side_lines(tl, true) + seq![lv[j as int]]);
                    assert(side_lines(whole, false) =~= side_lines(tl, false));
                } else {
                    assert(side_lines(whole, false) == side_lines(tl, false) + seq![lv[j as int]]);
                    assert(side_lines(whole, true) =~= side_lines(tl, true));
                }
                let grown = if in_block {
                    side_lines(whole, true)
                } else {
                    side_lines(whole, false)
                };
                let base = if in_block {
                    side_lines(tl, true)
                } else {
                    side_lines(tl, false)
                };
                assert(grown.drop_last() =~= base);
                assert(grown.last() == lv[j as int]);
            }
            if in_block {
                code.append(lines[j].as_str());
                push_char(&mut code, '\n');
            } else {
                text.append(lines[j].as_str());
                push_char(&mut text, '\n');
            }
        }
        j = j + 1;
    }
    proof {
        assert(lv.take(lines@.len() as int) =~= lv);
    }
    (text, code)
}

} // verus!
