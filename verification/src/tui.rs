//! The terminal interface's logic: word wrapping of chat text, the
//! command palette, sidebar tabs, and the setup wizard's steps.
use vstd::prelude::*;
use crate::providers::{catalog_index, catalog_key_envs, get_provider_slot};
use crate::text::{has_infix, is_ws, is_ws_exec, lowercase_text, push_char, str_contains, str_equal, to_lowercase_string};

verus! {

// ----- word wrapping -----
/// The text cut at each `\n`: the finished pieces and the piece still
/// open.
pub open spec fn pieces_acc(t: Seq<char>) -> (Seq<Seq<char>>, Seq<char>)
    decreases t.len(),
{
    if t.len() == 0 {
        (Seq::empty(), Seq::empty())
    } else {
        let (done, cur) = pieces_acc(t.drop_last());
        if t.last() == '\n' {
            (done.push(cur), Seq::empty())
        } else {
            (done, cur.push(t.last()))
        }
    }
}

/// A finished line without its `\r`, if it ended in `\r\n`.
pub open spec fn strip_cr(l: Seq<char>) -> Seq<char> {
    if l.len() > 0 && l.last() == '\r' {
        l.drop_last()
    } else {
        l
    }
}

/// The lines of a text, as `str::lines` yields them: cut at `\n`, a `\r`
/// before the `\n` dropped, and no line after a final `\n`.
pub open spec fn text_lines(t: Seq<char>) -> Seq<Seq<char>> {
    let (done, cur) = pieces_acc(t);
    let finished = Seq::new(done.len(), |i: int| strip_cr(done[i]));
    if cur.len() > 0 {
        finished.push(cur)
    } else {
        finished
    }
}

/// The words of a line split at white space: the finished words and the
/// word still open.
pub open spec fn words_acc(t: Seq<char>) -> (Seq<Seq<char>>, Seq<char>)
    decreases t.len(),
{
    if t.len() == 0 {
        (Seq::empty(), Seq::empty())
    } else {
        let (done, cur) = words_acc(t.drop_last());
        if is_ws(t.last()) {
            if cur.len() > 0 {
                (done.push(cur), Seq::empty())
            } else {
                (done, Seq::empty())
            }
        } else {
            (done, cur.push(t.last()))
        }
    }
}

/// The words of a line, as `str::split_whitespace` yields them.
pub open spec fn line_words(t: Seq<char>) -> Seq<Seq<char>> {
    let (done, cur) = words_acc(t);
    if cur.len() > 0 {
        done.push(cur)
    } else {
        done
    }
}

/// Fills words into lines of at most `width` characters, greedily: the
/// lines flushed so far and the line being filled. A word that does not
/// fit after the words of the current line flushes that line and starts
/// the next; a word alone on a line stays there, however long.
pub open spec fn fill_acc(words: Seq<Seq<char>>, width: nat) -> (Seq<Seq<char>>, Seq<char>)
    decreases words.len(),
{
    if words.len() == 0 {
        (Seq::empty(), Seq::empty())
    } else {
        let (out, cur) = fill_acc(words.drop_last(), width);
        let w = words.last();
        let space: nat = if cur.len() == 0 {
            0
        } else {
            1
        };
        if cur.len() == 0 {
            (out, w)
        } else if cur.len() + space + w.len() > width {
            (out.push(cur), w)
        } else {
            (out, cur.push(' ') + w)
        }
    }
}

/// The wrapped lines of one paragraph; an empty or blank paragraph gives
/// one empty line.
pub open spec fn wrap_paragraph(p: Seq<char>, width: nat) -> Seq<Seq<char>> {
    let words = line_words(p);
    if p.len() == 0 || words.len() == 0 {
        seq![Seq::empty()]
    } else {
        let (out, cur) = fill_acc(words, width);
        if cur.len() > 0 {
            out.push(cur)
        } else {
            out
        }
    }
}

/// The wrapped lines of the first `n` paragraphs, one after the other.
pub open spec fn wrap_upto(paras: Seq<Seq<char>>, width: nat, n: int) -> Seq<Seq<char>>
    decreases n,
{
    if n <= 0 {
        Seq::empty()
    } else {
        wrap_upto(paras, width, n - 1) + wrap_paragraph(paras[n - 1], width)
    }
}

/// The wrapped lines of a text: each of its lines wrapped to `width`
/// characters.
pub open spec fn wrapped(text: Seq<char>, width: nat) -> Seq<Seq<char>> {
    let paras = text_lines(text);
    wrap_upto(paras, width, paras.len() as int)
}

/// A text with no white space in it: one word.
pub open spec fn is_one_word(s: Seq<char>) -> bool {
    forall|i: int| 0 <= i < s.len() ==> !is_ws(#[trigger] s[i])
}

/// A wrapped line fits the width, or is a single word too long to fit.
pub open spec fn line_fits(l: Seq<char>, width: nat) -> bool {
    l.len() <= width || is_one_word(l)
}

proof fn lemma_words_are_words(t: Seq<char>)
    ensures
        forall|k: int| 0 <= k < words_acc(t).0.len() ==> is_one_word(#[trigger] words_acc(t).0[k]),
        is_one_word(words_acc(t).1),
    decreases t.len(),
{
    if t.len() > 0 {
        lemma_words_are_words(t.drop_last());
        let (done, cur) = words_acc(t.drop_last());
        if !is_ws(t.last()) {
            assert(is_one_word(cur.push(t.last()))) by {
                assert forall|i: int| 0 <= i < cur.push(t.last()).len() implies !is_ws(
                    #[trigger] cur.push(t.last())[i],
                ) by {
                    if i < cur.len() {
                        assert(cur.push(t.last())[i] == cur[i]);
                    }
                }
            }
        }
    }
}

proof fn lemma_fill_lines_fit(words: Seq<Seq<char>>, width: nat)
    requires
        forall|k: int| 0 <= k < words.len() ==> is_one_word(#[trigger] words[k]),
    ensures
        forall|k: int| 0 <= k < fill_acc(words, width).0.len() ==> line_fits(#[trigger] fill_acc(words, width).0[k], width),
        line_fits(fill_acc(words, width).1, width),
    decreases words.len(),
{
    if words.len() > 0 {
        let rest = words.drop_last();
        assert forall|k: int| 0 <= k < rest.len() implies is_one_word(#[trigger] rest[k]) by {
            assert(rest[k] == words[k]);
        }
        lemma_fill_lines_fit(rest, width);
        assert(is_one_word(words[words.len() - 1]));
    }
}

proof fn lemma_wrap_upto_fits(paras: Seq<Seq<char>>, width: nat, n: int)
    requires
        0 <= n <= paras.len(),
    ensures
        forall|k: int| 0 <= k < wrap_upto(paras, width, n).len() ==> line_fits(#[trigger] wrap_upto(paras, width, n)[k], width),
    decreases n,
{
    if n > 0 {
        lemma_wrap_upto_fits(paras, width, n - 1);
        let p = paras[n - 1];
        let words = line_words(p);
        lemma_words_are_words(p);
        assert forall|k: int| 0 <= k < words.len() implies is_one_word(#[trigger] words[k]) by {
            let (done, cur) = words_acc(p);
            if k < done.len() {
                assert(words[k] == done[k]);
            }
        }
        lemma_fill_lines_fit(words, width);
        let before = wrap_upto(paras, width, n - 1);
        let more = wrap_paragraph(p, width);
        assert forall|k: int| 0 <= k < more.len() implies line_fits(#[trigger] more[k], width) by {
            if p.len() == 0 || words.len() == 0 {
                assert(more[k] == Seq::<char>::empty());
            } else {
                let (out, cur) = fill_acc(words, width);
                if k < out.len() {
                    assert(more[k] == out[k]);
                }
            }
        }
        assert forall|k: int| 0 <= k < (before + more).len() implies line_fits(#[trigger] (before + more)[k], width) by {
            if k < before.len() {
                assert((before + more)[k] == before[k]);
            } else {
                assert((before + more)[k] == more[k - before.len()]);
            }
        }
    }
}

/// Wrapping never makes a line wider than asked, except for a single
/// word that is wider on its own.
pub proof fn law_wrapped_lines_fit(text: Seq<char>, width: nat)
    ensures
        forall|k: int| 0 <= k < wrapped(text, width).len() ==> line_fits(#[trigger] wrapped(text, width)[k], width),
{
    let paras = text_lines(text);
    lemma_wrap_upto_fits(paras, width, paras.len() as int);
}

/// The words of each line, one line after the other.
pub open spec fn words_of_lines(ls: Seq<Seq<char>>) -> Seq<Seq<char>>
    decreases ls.len(),
{
    if ls.len() == 0 {
        Seq::empty()
    } else {
        words_of_lines(ls.drop_last()) + line_words(ls.last())
    }
}

proof fn lemma_words_nonempty(t: Seq<char>)
    ensures
        forall|k: int| 0 <= k < words_acc(t).0.len() ==> (#[trigger] words_acc(t).0[k]).len() > 0,
    decreases t.len(),
{
    if t.len() > 0 {
        lemma_words_nonempty(t.drop_last());
        let (done, cur) = words_acc(t.drop_last());
        if is_ws(t.last()) && cur.len() > 0 {
            assert forall|k: int| 0 <= k < done.push(cur).len() implies (#[trigger] done.push(cur)[k]).len() > 0 by {
                if k < done.len() {
                    assert(done.push(cur)[k] == done[k]);
                }
            }
        }
    }
}

proof fn lemma_words_append_word(x: Seq<char>, w: Seq<char>)
    requires
        is_one_word(w),
    ensures
        words_acc(x + w) == (words_acc(x).0, words_acc(x).1 + w),
    decreases w.len(),
{
    if w.len() == 0 {
        assert(x + w =~= x);
        assert(words_acc(x).1 + w =~= words_acc(x).1);
    } else {
        let d = w.drop_last();
        assert(is_one_word(d)) by {
            assert forall|i: int| 0 <= i < d.len() implies !is_ws(#[trigger] d[i]) by {
                assert(d[i] == w[i]);
            }
        }
        lemma_words_append_word(x, d);
        assert((x + w).drop_last() =~= x + d);
        assert((x + w).last() == w.last());
        assert(!is_ws(w[w.len() - 1]));
        assert((words_acc(x).1 + d).push(w.last()) =~= words_acc(x).1 + w);
    }
}

/// A line that is empty or ends in a character other than white space.
pub open spec fn ends_clean(l: Seq<char>) -> bool {
    l.len() == 0 || !is_ws(l.last())
}

proof fn lemma_single_word(w: Seq<char>)
    requires
        is_one_word(w),
        w.len() > 0,
    ensures
        line_words(w) == seq![w],
{
    lemma_words_append_word(Seq::empty(), w);
    assert(Seq::<char>::empty() + w =~= w);
    assert(Seq::<char>::empty() + w =~= w);
}

proof fn lemma_join_word(cur: Seq<char>, w: Seq<char>)
    requires
        cur.len() > 0,
        ends_clean(cur),
        is_one_word(w),
        w.len() > 0,
    ensures
        line_words(cur.push(' ') + w) == line_words(cur).push(w),
{
    let (done, c) = words_acc(cur);
    assert(words_acc(cur.drop_last()).1.push(cur.last()) == c);
    let sp = cur.push(' ');
    assert(sp.drop_last() =~= cur);
    assert(is_ws(' '));
    assert(words_acc(sp) == (done.push(c), Seq::<char>::empty()));
    lemma_words_append_word(sp, w);
    assert(Seq::<char>::empty() + w =~= w);
}

proof fn lemma_fill_words(words: Seq<Seq<char>>, width: nat)
    requires
        forall|k: int| 0 <= k < words.len() ==> is_one_word(#[trigger] words[k]) && words[k].len() > 0,
    ensures
        words_of_lines(fill_acc(words, width).0) + line_words(fill_acc(words, width).1) == words,
        ends_clean(fill_acc(words, width).1),
    decreases words.len(),
{
    if words.len() == 0 {
        assert(line_words(Seq::<char>::empty()) =~= Seq::<Seq<char>>::empty());
        assert(Seq::<Seq<char>>::empty() + Seq::<Seq<char>>::empty() =~= words);
    } else {
        let rest = words.drop_last();
        assert forall|k: int| 0 <= k < rest.len() implies is_one_word(#[trigger] rest[k]) && rest[k].len() > 0 by {
            assert(rest[k] == words[k]);
        }
        lemma_fill_words(rest, width);
        let (out, cur) = fill_acc(rest, width);
        let w = words.last();
        assert(is_one_word(words[words.len() - 1]) && words[words.len() - 1].len() > 0);
        lemma_single_word(w);
        let space: nat = if cur.len() == 0 {
            0
        } else {
            1
        };
        assert(!is_ws(w[w.len() - 1]));
        if cur.len() + space + w.len() > width {
            assert((out.push(cur)).drop_last() =~= out);
            assert(words_of_lines(out.push(cur)) == words_of_lines(out) + line_words(cur));
            assert(words_of_lines(out.push(cur)) + line_words(w) =~= words);
        } else if cur.len() == 0 {
            assert(line_words(cur) =~= Seq::<Seq<char>>::empty());
            assert(words_of_lines(out) + line_words(w) =~= words);
        } else {
            lemma_join_word(cur, w);
            assert((cur.push(' ') + w).last() == w.last());
            assert(words =~= rest.push(w));
            assert(words_of_lines(out) + line_words(cur).push(w) =~= (words_of_lines(out) + line_words(cur)).push(w));
            assert(words_of_lines(out) + line_words(cur.push(' ') + w) =~= words);
        }
    }
}

proof fn lemma_paragraph_words(p: Seq<char>, width: nat)
    ensures
        words_of_lines(wrap_paragraph(p, width)) == line_words(p),
{
    let words = line_words(p);
    lemma_words_are_words(p);
    lemma_words_nonempty(p);
    let (done, c) = words_acc(p);
    assert forall|k: int| 0 <= k < words.len() implies is_one_word(#[trigger] words[k]) && words[k].len() > 0 by {
        if k < done.len() {
            assert(words[k] == done[k]);
        }
    }
    assert(line_words(Seq::<char>::empty()) =~= Seq::<Seq<char>>::empty());
    if p.len() == 0 || words.len() == 0 {
        let ls = seq![Seq::<char>::empty()];
        assert(ls.drop_last() =~= Seq::<Seq<char>>::empty());
        assert(ls.last() == Seq::<char>::empty());
        assert(words_of_lines(ls.drop_last()) =~= Seq::<Seq<char>>::empty());
        assert(words_of_lines(ls) == words_of_lines(ls.drop_last()) + line_words(ls.last()));
        assert(words_of_lines(ls) =~= Seq::<Seq<char>>::empty());
        if p.len() == 0 {
            assert(words =~= Seq::<Seq<char>>::empty());
        }
    } else {
        lemma_fill_words(words, width);
        let (out, cur) = fill_acc(words, width);
        if cur.len() > 0 {
            assert(out.push(cur).drop_last() =~= out);
        } else {
            assert(words_of_lines(out) + line_words(cur) =~= words_of_lines(out));
        }
    }
}

proof fn lemma_words_of_concat(a: Seq<Seq<char>>, b: Seq<Seq<char>>)
    ensures
        words_of_lines(a + b) == words_of_lines(a) + words_of_lines(b),
    decreases b.len(),
{
    if b.len() == 0 {
        assert(a + b =~= a);
        assert(words_of_lines(a) + Seq::<Seq<char>>::empty() =~= words_of_lines(a));
    } else {
        lemma_words_of_concat(a, b.drop_last());
        assert((a + b).drop_last() =~= a + b.drop_last());
        assert((a + b).last() == b.last());
        assert(words_of_lines(a) + words_of_lines(b.drop_last()) + line_words(b.last()) =~= words_of_lines(a)
            + (words_of_lines(b.drop_last()) + line_words(b.last())));
    }
}

proof fn lemma_wrap_upto_words(paras: Seq<Seq<char>>, width: nat, n: int)
    requires
        0 <= n <= paras.len(),
    ensures
        words_of_lines(wrap_upto(paras, width, n)) == words_of_lines(paras.take(n)),
    decreases n,
{
    if n == 0 {
        assert(paras.take(0) =~= Seq::<Seq<char>>::empty());
    } else {
        lemma_wrap_upto_words(paras, width, n - 1);
        lemma_words_of_concat(wrap_upto(paras, width, n - 1), wrap_paragraph(paras[n - 1], width));
        lemma_paragraph_words(paras[n - 1], width);
        assert(paras.take(n).drop_last() =~= paras.take(n - 1));
        assert(paras.take(n).last() == paras[n - 1]);
    }
}

/// Wrapping keeps the words: the words of the wrapped lines are, in
/// order, the words of the text's lines; wrapping only moves the breaks
/// between words.
pub proof fn law_wrap_keeps_words(text: Seq<char>, width: nat)
    ensures
        words_of_lines(wrapped(text, width)) == words_of_lines(text_lines(text)),
{
    let paras = text_lines(text);
    lemma_wrap_upto_words(paras, width, paras.len() as int);
    assert(paras.take(paras.len() as int) =~= paras);
}

/// A line with no leading, trailing or doubled white space, whose every
/// white space is a single space.
pub open spec fn tidy(l: Seq<char>) -> bool {
    &&& l.len() == 0 || (!is_ws(l[0]) && !is_ws(l.last()))
    &&& forall|i: int| 0 <= i < l.len() && is_ws(#[trigger] l[i]) ==> l[i] == ' ' && 0 < i < l.len() - 1 && !is_ws(
        l[i - 1],
    ) && !is_ws(l[i + 1])
}

proof fn lemma_word_tidy(w: Seq<char>)
    requires
        is_one_word(w),
    ensures
        tidy(w),
{
    if w.len() > 0 {
        assert(!is_ws(w[0]));
        assert(!is_ws(w[w.len() - 1]));
    }
}

proof fn lemma_join_tidy(cur: Seq<char>, w: Seq<char>)
    requires
        tidy(cur),
        cur.len() > 0,
        is_one_word(w),
        w.len() > 0,
    ensures
        tidy(cur.push(' ') + w),
{
    let j = cur.push(' ') + w;
    let n = cur.len() as int;
    assert(j[0] == cur[0]);
    assert(j[j.len() - 1] == w[w.len() - 1]);
    assert(!is_ws(w[w.len() - 1]));
    assert forall|i: int| 0 <= i < j.len() && is_ws(#[trigger] j[i]) implies j[i] == ' ' && 0 < i < j.len() - 1
        && !is_ws(j[i - 1]) && !is_ws(j[i + 1]) by {
        if i < n {
            assert(j[i] == cur[i]);
            assert(is_ws(cur[i]));
            assert(j[i - 1] == cur[i - 1]);
            assert(j[i + 1] == cur[i + 1]);
        } else if i == n {
            assert(j[i - 1] == cur[n - 1]);
            assert(j[i + 1] == w[0]);
            assert(!is_ws(w[0]));
        } else {
            assert(j[i] == w[i - n - 1]);
            assert(!is_ws(w[i - n - 1]));
        }
    }
}

proof fn lemma_fill_tidy(words: Seq<Seq<char>>, width: nat)
    requires
        forall|k: int| 0 <= k < words.len() ==> is_one_word(#[trigger] words[k]) && words[k].len() > 0,
    ensures
        forall|k: int| 0 <= k < fill_acc(words, width).0.len() ==> tidy(#[trigger] fill_acc(words, width).0[k]),
        tidy(fill_acc(words, width).1),
        words.len() > 0 ==> fill_acc(words, width).1.len() > 0,
    decreases words.len(),
{
    if words.len() > 0 {
        let rest = words.drop_last();
        assert forall|k: int| 0 <= k < rest.len() implies is_one_word(#[trigger] rest[k]) && rest[k].len() > 0 by {
            assert(rest[k] == words[k]);
        }
        lemma_fill_tidy(rest, width);
        let (out, cur) = fill_acc(rest, width);
        let w = words.last();
        assert(is_one_word(words[words.len() - 1]) && words[words.len() - 1].len() > 0);
        lemma_word_tidy(w);
        if cur.len() == 0 {
        } else if cur.len() + 1 + w.len() > width {
            assert forall|k: int| 0 <= k < out.push(cur).len() implies tidy(#[trigger] out.push(cur)[k]) by {
                if k < out.len() {
                    assert(out.push(cur)[k] == out[k]);
                }
            }
        } else {
            lemma_join_tidy(cur, w);
        }
    }
}

proof fn lemma_paragraph_tidy(p: Seq<char>, width: nat)
    ensures
        forall|k: int| 0 <= k < wrap_paragraph(p, width).len() ==> tidy(#[trigger] wrap_paragraph(p, width)[k]),
        wrap_paragraph(p, width).len() >= 1,
{
    let words = line_words(p);
    lemma_words_are_words(p);
    lemma_words_nonempty(p);
    let (done, c) = words_acc(p);
    assert forall|k: int| 0 <= k < words.len() implies is_one_word(#[trigger] words[k]) && words[k].len() > 0 by {
        if k < done.len() {
            assert(words[k] == done[k]);
        }
    }
    if p.len() == 0 || words.len() == 0 {
        assert(tidy(Seq::<char>::empty()));
    } else {
        lemma_fill_tidy(words, width);
        let (out, cur) = fill_acc(words, width);
        assert forall|k: int| 0 <= k < out.push(cur).len() implies tidy(#[trigger] out.push(cur)[k]) by {
            if k < out.len() {
                assert(out.push(cur)[k] == out[k]);
            }
        }
    }
}

proof fn lemma_wrap_upto_tidy(paras: Seq<Seq<char>>, width: nat, n: int)
    requires
        0 <= n <= paras.len(),
    ensures
        forall|k: int| 0 <= k < wrap_upto(paras, width, n).len() ==> tidy(#[trigger] wrap_upto(paras, width, n)[k]),
        wrap_upto(paras, width, n).len() >= n,
    decreases n,
{
    if n > 0 {
        lemma_wrap_upto_tidy(paras, width, n - 1);
        lemma_paragraph_tidy(paras[n - 1], width);
        let before = wrap_upto(paras, width, n - 1);
        let more = wrap_paragraph(paras[n - 1], width);
        assert forall|k: int| 0 <= k < (before + more).len() implies tidy(#[trigger] (before + more)[k]) by {
            if k < before.len() {
                assert((before + more)[k] == before[k]);
            } else {
                assert((before + more)[k] == more[k - before.len()]);
            }
        }
    }
}

/// Wrapped lines are tidy, with no leading, trailing or doubled white
/// space, and every line of the text gives at least one wrapped line.
pub proof fn law_wrapped_lines_tidy(text: Seq<char>, width: nat)
    ensures
        forall|k: int| 0 <= k < wrapped(text, width).len() ==> tidy(#[trigger] wrapped(text, width)[k]),
        wrapped(text, width).len() >= text_lines(text).len(),
{
    let paras = text_lines(text);
    lemma_wrap_upto_tidy(paras, width, paras.len() as int);
}

/// A text with no line break in it.
pub open spec fn no_break(t: Seq<char>) -> bool {
    forall|i: int| 0 <= i < t.len() ==> #[trigger] t[i] != '\n'
}

proof fn lemma_pieces_append(x: Seq<char>, y: Seq<char>)
    requires
        no_break(y),
    ensures
        pieces_acc(x + y) == (pieces_acc(x).0, pieces_acc(x).1 + y),
    decreases y.len(),
{
    if y.len() == 0 {
        assert(x + y =~= x);
        assert(pieces_acc(x).1 + y =~= pieces_acc(x).1);
    } else {
        let d = y.drop_last();
        assert(no_break(d));
        lemma_pieces_append(x, d);
        assert((x + y).drop_last() =~= x + d);
        assert((x + y).last() == y.last());
        assert(y.last() != '\n');
        assert(pieces_acc(x).1 + d.push(y.last()) =~= pieces_acc(x).1 + y);
        assert((pieces_acc(x).1 + d).push(y.last()) =~= pieces_acc(x).1 + y);
    }
}

proof fn lemma_single_line(a: Seq<char>)
    requires
        no_break(a),
        a.len() > 0,
    ensures
        text_lines(a) == seq![a],
{
    lemma_pieces_append(Seq::empty(), a);
    assert(Seq::<char>::empty() + a =~= a);
    assert(Seq::<char>::empty() + a =~= a);
    let (done, cur) = pieces_acc(a);
    assert(done.len() == 0);
    assert(Seq::new(done.len(), |i: int| strip_cr(done[i])).push(cur) =~= seq![a]);
}

/// Wrapping keeps explicit line breaks: two lines joined by a line break
/// wrap to the wrapped first line followed by the wrapped second, so no
/// wrapped line joins words of both.
pub proof fn law_wrap_keeps_line_breaks(a: Seq<char>, b: Seq<char>, width: nat)
    requires
        a.len() > 0,
        b.len() > 0,
        no_break(a),
        no_break(b),
        a.last() != '\r',
    ensures
        wrapped(a + seq!['\n'] + b, width) == wrapped(a, width) + wrapped(b, width),
{
    let t = a + seq!['\n'] + b;
    let an = a + seq!['\n'];
    lemma_pieces_append(Seq::empty(), a);
    assert(Seq::<char>::empty() + a =~= a);
    assert(an.drop_last() =~= a);
    assert(pieces_acc(an) == (seq![a], Seq::<char>::empty()));
    lemma_pieces_append(an, b);
    assert(t =~= an + b);
    assert(Seq::<char>::empty() + b =~= b);
    assert(pieces_acc(t) == (seq![a], b));
    assert(strip_cr(a) == a);
    assert(text_lines(t) =~= seq![a, b]);
    lemma_single_line(a);
    lemma_single_line(b);
    let paras = seq![a, b];
    assert(paras[0] == a && paras[1] == b);
    assert(wrap_upto(paras, width, 1) =~= wrap_upto(paras, width, 0) + wrap_paragraph(a, width));
    assert(wrap_upto(paras, width, 2) =~= wrap_upto(paras, width, 0) + wrap_paragraph(a, width) + wrap_paragraph(b, width));
    assert(wrapped(a, width) =~= wrap_upto(seq![a], width, 0) + wrap_paragraph(a, width));
    assert(wrapped(b, width) =~= wrap_upto(seq![b], width, 0) + wrap_paragraph(b, width));
}


/// The texts of a vector of strings.
pub open spec fn strings_view(v: Seq<String>) -> Seq<Seq<char>> {
    Seq::new(v.len(), |i: int| v[i]@)
}

fn split_lines(text: &str) -> (r: Vec<String>)
    ensures
        strings_view(r@) == text_lines(text@),
{
    let n = text.unicode_len();
    let mut done: Vec<String> = Vec::new();
    let mut cur = String::new();
    let mut i: usize = 0;
    while i < n
        invariant
            n == text@.len(),
            i <= n,
            (strings_view(done@), cur@) == pieces_acc(text@.subrange(0, i as int)),
        decreases n - i,
    {
        let c = text.get_char(i);
        assert(text@.subrange(0, i + 1).drop_last() =~= text@.subrange(0, i as int));
        if c == '\n' {
            let ghost before = strings_view(done@);
            let piece = cur;
            cur = String::new();
            done.push(piece);
            assert(strings_view(done@) =~= before.push(piece@));
        } else {
            push_char(&mut cur, c);
        }
        i = i + 1;
    }
    assert(text@.subrange(0, n as int) =~= text@);
    let ghost pieces = strings_view(done@);
    let mut out: Vec<String> = Vec::new();
    let mut k: usize = 0;
    while k < done.len()
        invariant
            k <= done@.len(),
            pieces == strings_view(done@),
            strings_view(out@) =~= Seq::new(k as nat, |j: int| strip_cr(pieces[j])),
        decreases done.len() - k,
    {
        let line = &done[k];
        let m = line.unicode_len();
        let stripped = if m > 0 && line.get_char(m - 1) == '\r' {
            String::from_str(line.substring_char(0, m - 1))
        } else {
            line.clone()
        };
        assert(stripped@ =~= strip_cr(pieces[k as int]));
        let ghost before = strings_view(out@);
        out.push(stripped);
        assert(strings_view(out@) =~= before.push(strip_cr(pieces[k as int])));
        assert(Seq::new((k + 1) as nat, |j: int| strip_cr(pieces[j])) =~= Seq::new(
            k as nat,
            |j: int| strip_cr(pieces[j]),
        ).push(strip_cr(pieces[k as int])));
        k = k + 1;
    }
    if cur.unicode_len() > 0 {
        let ghost before = strings_view(out@);
        let ghost cv = cur@;
        out.push(cur);
        assert(strings_view(out@) =~= before.push(cv));
    }
    out
}

fn split_words(line: &str) -> (r: Vec<String>)
    ensures
        strings_view(r@) == line_words(line@),
{
    let n = line.unicode_len();
    let mut done: Vec<String> = Vec::new();
    let mut cur = String::new();
    let mut i: usize = 0;
    while i < n
        invariant
            n == line@.len(),
            i <= n,
            (strings_view(done@), cur@) == words_acc(line@.subrange(0, i as int)),
        decreases n - i,
    {
        let c = line.get_char(i);
        assert(line@.subrange(0, i + 1).drop_last() =~= line@.subrange(0, i as int));
        if is_ws_exec(c) {
            if cur.unicode_len() > 0 {
                let ghost before = strings_view(done@);
                let word = cur;
                cur = String::new();
                done.push(word);
                assert(strings_view(done@) =~= before.push(word@));
            } else {
                cur = String::new();
            }
        } else {
            push_char(&mut cur, c);
        }
        i = i + 1;
    }
    assert(line@.subrange(0, n as int) =~= line@);
    if cur.unicode_len() > 0 {
        let ghost before = strings_view(done@);
        let ghost cv = cur@;
        done.push(cur);
        assert(strings_view(done@) =~= before.push(cv));
    }
    done
}

fn wrap_one(p: &str, width: usize, lines: &mut Vec<String>)
    ensures
        strings_view(final(lines)@) == strings_view(old(lines)@) + wrap_paragraph(p@, width as nat),
{
    let ghost start = strings_view(lines@);
    let words = split_words(p);
    if p.unicode_len() == 0 || words.len() == 0 {
        lines.push(String::new());
        assert(strings_view(lines@) =~= start + seq![Seq::<char>::empty()]);
        return;
    }
    let ghost ws = strings_view(words@);
    let mut cur = String::new();
    let mut added: Vec<String> = Vec::new();
    let mut k: usize = 0;
    while k < words.len()
        invariant
            k <= words@.len(),
            ws == strings_view(words@),
            (strings_view(added@), cur@) == fill_acc(ws.subrange(0, k as int), width as nat),
        decreases words.len() - k,
    {
        assert(ws.subrange(0, k + 1).drop_last() =~= ws.subrange(0, k as int));
        let w = &words[k];
        let cl = cur.unicode_len();
        let wl = w.unicode_len();
        let space: usize = if cl == 0 {
            0
        } else {
            1
        };
        if cl == 0 {
            cur = w.clone();
        } else if cl as u128 + space as u128 + wl as u128 > width as u128 {
            let ghost before = strings_view(added@);
            let flushed = cur;
            cur = w.clone();
            added.push(flushed);
            assert(strings_view(added@) =~= before.push(flushed@));
        } else {
            push_char(&mut cur, ' ');
            cur.append(w.as_str());
        }
        k = k + 1;
    }
    assert(ws.subrange(0, words@.len() as int) =~= ws);
    if cur.unicode_len() > 0 {
        let ghost before = strings_view(added@);
        let ghost cv = cur@;
        added.push(cur);
        assert(strings_view(added@) =~= before.push(cv));
    }
    let ghost add = strings_view(added@);
    let mut j: usize = 0;
    while j < added.len()
        invariant
            j <= added@.len(),
            add == strings_view(added@),
            strings_view(lines@) =~= start + add.subrange(0, j as int),
        decreases added.len() - j,
    {
        let ghost before = strings_view(lines@);
        lines.push(added[j].clone());
        assert(strings_view(lines@) =~= before.push(add[j as int]));
        j = j + 1;
    }
    assert(add.subrange(0, added@.len() as int) =~= add);
}

/// Wraps text to lines of at most `max_width` characters, word by word;
/// a word longer than the width stands on a line of its own, and an empty
/// or blank line of the text stays an empty line.
pub fn wrap_text(text: &str, max_width: usize) -> (lines: Vec<String>)
    ensures
        strings_view(lines@) == wrapped(text@, max_width as nat),
{
    let paras = split_lines(text);
    let ghost ps = strings_view(paras@);
    let mut lines: Vec<String> = Vec::new();
    let mut i: usize = 0;
    while i < paras.len()
        invariant
            i <= paras@.len(),
            ps == strings_view(paras@),
            ps == text_lines(text@),
            strings_view(lines@) == wrap_upto(ps, max_width as nat, i as int),
        decreases paras.len() - i,
    {
        wrap_one(paras[i].as_str(), max_width, &mut lines);
        i = i + 1;
    }
    lines
}


// ----- bold markup -----
/// A run of chat text, shown bold or in the base style.
pub struct MarkdownSpan {
    pub text: String,
    pub bold: bool,
}

/// Is there a `**` marker at `i`?
pub open spec fn marker_at(s: Seq<char>, i: int) -> bool {
    0 <= i && i + 1 < s.len() && s[i] == '*' && s[i + 1] == '*'
}

/// How far past `from` the first `**` marker starts, if there is one.
pub open spec fn next_marker(s: Seq<char>, from: int) -> Option<nat>
    decreases s.len() - from,
{
    if from < 0 || from + 1 >= s.len() {
        None
    } else if marker_at(s, from) {
        Some(0)
    } else {
        match next_marker(s, from + 1) {
            Some(d) => Some(d + 1),
            None => None,
        }
    }
}

/// The spans of the text from `pos` on: a `**`-delimited run is bold
/// without its markers; an unclosed `**` is kept, with the rest of the
/// text, as plain text; other text is plain up to the next marker.
pub open spec fn spans_from(s: Seq<char>, pos: int) -> Seq<(Seq<char>, bool)>
    decreases s.len() - pos,
{
    if pos < 0 || pos >= s.len() {
        Seq::empty()
    } else if marker_at(s, pos) {
        proof {
            lemma_next_marker_bound(s, pos + 2);
        }
        match next_marker(s, pos + 2) {
            Some(d) => seq![(s.subrange(pos + 2, pos + 2 + d), true)] + spans_from(s, pos + 2 + d + 2),
            None => seq![("**"@ + s.subrange(pos + 2, s.len() as int), false)],
        }
    } else {
        proof {
            lemma_next_marker_bound(s, pos + 1);
        }
        match next_marker(s, pos + 1) {
            Some(d) => seq![(s.subrange(pos, pos + 1 + d), false)] + spans_from(s, pos + 1 + d),
            None => seq![(s.subrange(pos, s.len() as int), false)],
        }
    }
}

/// The spans a chat line is shown in: those of the text, or one empty
/// plain span for an empty line.
pub open spec fn markdown_spans(s: Seq<char>) -> Seq<(Seq<char>, bool)> {
    if s.len() == 0 {
        seq![(Seq::empty(), false)]
    } else {
        spans_from(s, 0)
    }
}

/// The text the spans were read from: bold runs back between markers.
pub open spec fn render_spans(spans: Seq<(Seq<char>, bool)>) -> Seq<char>
    decreases spans.len(),
{
    if spans.len() == 0 {
        Seq::empty()
    } else {
        let (t, bold) = spans.last();
        render_spans(spans.drop_last()) + if bold {
            "**"@ + t + "**"@
        } else {
            t
        }
    }
}

/// The views of spans.
pub open spec fn span_views(v: Seq<MarkdownSpan>) -> Seq<(Seq<char>, bool)> {
    Seq::new(v.len(), |i: int| (v[i].text@, v[i].bold))
}

pub proof fn lemma_next_marker_bound(s: Seq<char>, a: int)
    ensures
        next_marker(s, a) matches Some(d) ==> 0 <= a && a + d + 1 < s.len(),
    decreases s.len() - a,
{
    if a >= 0 && a + 1 < s.len() && !marker_at(s, a) {
        lemma_next_marker_bound(s, a + 1);
    }
}

proof fn lemma_next_marker_found(s: Seq<char>, a: int, c: int)
    requires
        0 <= a <= c,
        forall|k: int| a <= k < c ==> !marker_at(s, k),
        marker_at(s, c),
    ensures
        next_marker(s, a) == Some((c - a) as nat),
    decreases c - a,
{
    if a < c {
        lemma_next_marker_found(s, a + 1, c);
    }
}

proof fn lemma_next_marker_none(s: Seq<char>, a: int)
    requires
        0 <= a,
        forall|k: int| a <= k < s.len() ==> !marker_at(s, k),
    ensures
        next_marker(s, a) is None,
    decreases s.len() - a,
{
    if a + 1 < s.len() {
        lemma_next_marker_none(s, a + 1);
    }
}

proof fn lemma_next_marker_is_marker(s: Seq<char>, a: int)
    ensures
        next_marker(s, a) matches Some(d) ==> marker_at(s, a + d),
    decreases s.len() - a,
{
    if a >= 0 && a + 1 < s.len() && !marker_at(s, a) {
        lemma_next_marker_is_marker(s, a + 1);
    }
}

proof fn lemma_render_spans_concat(a: Seq<(Seq<char>, bool)>, b: Seq<(Seq<char>, bool)>)
    ensures
        render_spans(a + b) == render_spans(a) + render_spans(b),
    decreases b.len(),
{
    if b.len() == 0 {
        assert(a + b =~= a);
    } else {
        lemma_render_spans_concat(a, b.drop_last());
        assert((a + b).drop_last() =~= a + b.drop_last());
    }
}

proof fn lemma_spans_render(s: Seq<char>, pos: int)
    requires
        0 <= pos <= s.len(),
    ensures
        render_spans(spans_from(s, pos)) == s.subrange(pos, s.len() as int),
    decreases s.len() - pos,
{
    reveal_with_fuel(render_spans, 2);
    if pos == s.len() {
        assert(s.subrange(pos, s.len() as int) =~= Seq::<char>::empty());
    } else if marker_at(s, pos) {
        lemma_next_marker_is_marker(s, pos + 2);
        match next_marker(s, pos + 2) {
            Some(d) => {
                let j = pos + 2 + d;
                lemma_spans_render(s, j + 2);
                let head = seq![(s.subrange(pos + 2, j), true)];
                lemma_render_spans_concat(head, spans_from(s, j + 2));
                assert(render_spans(head) =~= "**"@ + s.subrange(pos + 2, j) + "**"@) by {
                    assert(head.drop_last() =~= Seq::<(Seq<char>, bool)>::empty());
                }
                assert(s.subrange(pos, s.len() as int) =~= "**"@ + s.subrange(pos + 2, j) + "**"@ + s.subrange(
                    j + 2,
                    s.len() as int,
                )) by {
                    reveal_strlit("**");
                }
            },
            None => {
                let only = seq![("**"@ + s.subrange(pos + 2, s.len() as int), false)];
                assert(only.drop_last() =~= Seq::<(Seq<char>, bool)>::empty());
                assert(s.subrange(pos, s.len() as int) =~= "**"@ + s.subrange(pos + 2, s.len() as int)) by {
                    reveal_strlit("**");
                }
            },
        }
    } else {
        lemma_next_marker_is_marker(s, pos + 1);
        match next_marker(s, pos + 1) {
            Some(d) => {
                let j = pos + 1 + d;
                lemma_spans_render(s, j);
                let head = seq![(s.subrange(pos, j), false)];
                lemma_render_spans_concat(head, spans_from(s, j));
                assert(head.drop_last() =~= Seq::<(Seq<char>, bool)>::empty());
                assert(s.subrange(pos, s.len() as int) =~= s.subrange(pos, j) + s.subrange(j, s.len() as int));
            },
            None => {
                let only = seq![(s.subrange(pos, s.len() as int), false)];
                assert(only.drop_last() =~= Seq::<(Seq<char>, bool)>::empty());
                assert(render_spans(only) =~= s.subrange(pos, s.len() as int));
            },
        }
    }
}

/// Reading a line into spans loses nothing: writing the bold spans back
/// between `**` markers gives the line again.
pub proof fn law_markdown_round_trip(s: Seq<char>)
    ensures
        render_spans(markdown_spans(s)) == s,
{
    reveal_with_fuel(render_spans, 2);
    if s.len() == 0 {
        let only = seq![(Seq::<char>::empty(), false)];
        assert(only.drop_last() =~= Seq::<(Seq<char>, bool)>::empty());
        assert(render_spans(only) =~= s);
    } else {
        lemma_spans_render(s, 0);
        assert(s.subrange(0, s.len() as int) =~= s);
    }
}

fn is_marker(chars: &Vec<char>, i: usize) -> (r: bool)
    ensures
        r == marker_at(chars@, i as int),
{
    i < chars.len() && i + 1 < chars.len() && chars[i] == '*' && chars[i + 1] == '*'
}

/// Splits a chat line into plain and bold spans at `**` markers.
pub fn parse_markdown_line(text: &str) -> (spans: Vec<MarkdownSpan>)
    ensures
        span_views(spans@) == markdown_spans(text@),
{
    let ghost s = text@;
    let n = text.unicode_len();
    let mut chars: Vec<char> = Vec::new();
    let mut k: usize = 0;
    while k < n
        invariant
            n == s.len(),
            k <= n,
            s == text@,
            chars@ == s.subrange(0, k as int),
        decreases n - k,
    {
        chars.push(text.get_char(k));
        k = k + 1;
    }
    assert(chars@ =~= s);
    let mut spans: Vec<MarkdownSpan> = Vec::new();
    let mut pos: usize = 0;
    while pos < n
        invariant
            n == s.len(),
            chars@ == s,
            pos <= n,
            span_views(spans@) + spans_from(s, pos as int) == spans_from(s, 0),
        decreases n - pos,
    {
        let ghost start = pos as int;
        if is_marker(&chars, pos) {
            pos = pos + 2;
            let mut accum = String::new();
            let mut found_end = false;
            while pos < n
                invariant_except_break
                    n == s.len(),
                    chars@ == s,
                    0 <= start,
                    start + 2 <= pos <= n,
                    !found_end,
                    accum@ == s.subrange(start + 2, pos as int),
                    forall|q: int| start + 2 <= q < pos ==> !marker_at(s, q),
                ensures
                    start + 2 <= pos <= n,
                    found_end ==> (pos >= start + 4 && marker_at(s, pos - 2) && accum@ == s.subrange(
                        start + 2,
                        pos - 2,
                    ) && forall|q: int| start + 2 <= q < pos - 2 ==> !marker_at(s, q)),
                    !found_end ==> (pos == n && accum@ == s.subrange(start + 2, n as int) && forall|q: int|
                        start + 2 <= q < n ==> !marker_at(s, q)),
                decreases n - pos,
            {
                if is_marker(&chars, pos) {
                    pos = pos + 2;
                    found_end = true;
                    break;
                }
                let c = chars[pos];
                push_char(&mut accum, c);
                assert(s.subrange(start + 2, pos + 1) =~= s.subrange(start + 2, pos as int).push(s[pos as int]));
                pos = pos + 1;
            }
            let ghost before = span_views(spans@);
            if found_end {
                proof {
                    lemma_next_marker_found(s, start + 2, pos - 2);
                }
                spans.push(MarkdownSpan { text: accum, bold: true });
                assert(span_views(spans@) =~= before.push((s.subrange(start + 2, pos - 2), true)));
            } else {
                proof {
                    lemma_next_marker_none(s, start + 2);
                }
                let mut literal = String::from_str("**");
                literal.append(accum.as_str());
                spans.push(MarkdownSpan { text: literal, bold: false });
                assert(span_views(spans@) =~= before.push(("**"@ + s.subrange(start + 2, n as int), false)));
                assert(spans_from(s, n as int) =~= Seq::<(Seq<char>, bool)>::empty());
            }
        } else {
            let mut accum = String::new();
            while pos < n
                invariant_except_break
                    n == s.len(),
                    chars@ == s,
                    0 <= start < n,
                    !marker_at(s, start),
                    start <= pos <= n,
                    accum@ == s.subrange(start, pos as int),
                    forall|q: int| start + 1 <= q < pos ==> !marker_at(s, q),
                ensures
                    start < pos <= n,
                    accum@ == s.subrange(start, pos as int),
                    forall|q: int| start + 1 <= q < pos ==> !marker_at(s, q),
                    pos < n ==> marker_at(s, pos as int),
                decreases n - pos,
            {
                if is_marker(&chars, pos) {
                    break;
                }
                let c = chars[pos];
                push_char(&mut accum, c);
                assert(s.subrange(start, pos + 1) =~= s.subrange(start, pos as int).push(s[pos as int]));
                pos = pos + 1;
            }
            proof {
                if pos < n {
                    lemma_next_marker_found(s, start + 1, pos as int);
                } else {
                    lemma_next_marker_none(s, start + 1);
                    assert(spans_from(s, n as int) =~= Seq::<(Seq<char>, bool)>::empty());
                }
            }
            let ghost before = span_views(spans@);
            spans.push(MarkdownSpan { text: accum, bold: false });
            assert(span_views(spans@) =~= before.push((s.subrange(start, pos as int), false)));
        }
    }
    if spans.len() == 0 {
        spans.push(MarkdownSpan { text: String::new(), bold: false });
        assert(span_views(spans@) =~= seq![(Seq::<char>::empty(), false)]);
    }
    spans
}

// ----- layout -----
/// A rectangle of terminal cells.
#[derive(Clone, Copy, Debug, PartialEq, Eq, Structural)]
pub struct Rect {
    pub x: u16,
    pub y: u16,
    pub width: u16,
    pub height: u16,
}

/// `a - b`, or zero when `b` is larger.
pub open spec fn sat_sub(a: u16, b: u16) -> int {
    if a >= b {
        a - b
    } else {
        0
    }
}

/// The smaller of two sizes.
pub open spec fn min_u16(a: u16, b: u16) -> u16 {
    if a <= b {
        a
    } else {
        b
    }
}

/// A `width` by `height` rectangle centred in `r`, clipped to it. The
/// position must fit in a `u16`.
pub fn get_fixed_centered_rect(width: u16, height: u16, r: Rect) -> (c: Rect)
    requires
        r.x + sat_sub(r.width, width) / 2 <= u16::MAX,
        r.y + sat_sub(r.height, height) / 2 <= u16::MAX,
    ensures
        c.x == r.x + sat_sub(r.width, width) / 2,
        c.y == r.y + sat_sub(r.height, height) / 2,
        c.width == min_u16(width, r.width),
        c.height == min_u16(height, r.height),
        c.x + c.width <= r.x + r.width,
        c.y + c.height <= r.y + r.height,
{
    let dx: u16 = if r.width >= width {
        r.width - width
    } else {
        0
    };
    let dy: u16 = if r.height >= height {
        r.height - height
    } else {
        0
    };
    Rect {
        x: r.x + dx / 2,
        y: r.y + dy / 2,
        width: if width <= r.width {
            width
        } else {
            r.width
        },
        height: if height <= r.height {
            height
        } else {
            r.height
        },
    }
}

/// The width of a column taking `pct` percent of `width`, truncated to
/// 16 bits as a `u16` cast does.
pub open spec fn column_width(width: u16, pct: u16) -> int {
    ((width as int * pct as int) / 100) % 0x1_0000
}

/// Where the column after the first `k` columns starts.
pub open spec fn column_start(area: Rect, pcts: Seq<u16>, k: int) -> int
    decreases k,
{
    if k <= 0 {
        area.x as int
    } else {
        column_start(area, pcts, k - 1) + column_width(area.width, pcts[k - 1])
    }
}

/// The separators drawn between table columns: at the start of every
/// column but the first that begins inside the area, and none when the
/// area has no room inside its border.
pub open spec fn table_separators(area: Rect, pcts: Seq<u16>) -> Seq<u16>
    recommends
        pcts.len() >= 1,
{
    if sat_sub(area.height, 2) == 0 {
        Seq::empty()
    } else {
        separators_upto(area, pcts, pcts.len() - 1)
    }
}

/// The separators after the first `k` columns.
pub open spec fn separators_upto(area: Rect, pcts: Seq<u16>, k: int) -> Seq<u16>
    decreases k,
{
    if k <= 0 {
        Seq::empty()
    } else if column_start(area, pcts, k) < area.x + area.width {
        separators_upto(area, pcts, k - 1).push(column_start(area, pcts, k) as u16)
    } else {
        separators_upto(area, pcts, k - 1)
    }
}

/// The x positions of the separators of a table drawn in `area` with
/// columns of the given percentages. The column starts and the area's
/// right edge must fit in a `u16`.
pub fn table_separator_columns(area: Rect, percentages: &Vec<u16>) -> (xs: Vec<u16>)
    requires
        percentages@.len() >= 1,
        area.x + area.width <= u16::MAX,
        forall|k: int| 0 <= k < percentages@.len() ==> column_start(area, percentages@, k) <= u16::MAX,
    ensures
        xs@ == table_separators(area, percentages@),
{
    let mut xs: Vec<u16> = Vec::new();
    let height: u16 = if area.height >= 2 {
        area.height - 2
    } else {
        0
    };
    if height == 0 {
        return xs;
    }
    let right: u16 = area.x + area.width;
    let mut current_x: u16 = area.x;
    let mut k: usize = 0;
    while k < percentages.len() - 1
        invariant
            percentages@.len() >= 1,
            k <= percentages@.len() - 1,
            right == area.x + area.width,
            current_x == column_start(area, percentages@, k as int),
            forall|j: int| 0 <= j < percentages@.len() ==> column_start(area, percentages@, j) <= u16::MAX,
            xs@ == separators_upto(area, percentages@, k as int),
        decreases percentages@.len() - 1 - k,
    {
        let pct = percentages[k];
        assert(area.width as u32 * pct as u32 <= u32::MAX) by (nonlinear_arith)
            requires
                area.width <= 0xffff,
                pct <= 0xffff,
        ;
        let wide: u32 = area.width as u32 * pct as u32 / 100;
        let col_width: u16 = (wide % 0x1_0000) as u16;
        assert(col_width == column_width(area.width, pct)) by (nonlinear_arith)
            requires
                wide == area.width as u32 * pct as u32 / 100,
                col_width == wide % 0x1_0000,
        ;
        assert(column_start(area, percentages@, k + 1) == column_start(area, percentages@, k as int) + col_width);
        current_x = current_x + col_width;
        if current_x < right {
            xs.push(current_x);
        }
        k = k + 1;
    }
    xs
}

// ----- sidebar tabs -----
/// A tab of the sidebar.
#[derive(Clone, Copy, Debug, PartialEq, Eq, Structural)]
pub enum Tab {
    Session,
    Agents,
    Workers,
    SpawnRequests,
    Missions,
    Tasks,
    Memory,
    Approvals,
    Costs,
    Policies,
    Skills,
    Artifacts,
    Incidents,
}

/// The title a sidebar tab shows.
pub open spec fn tab_title(tab: Tab) -> Seq<char> {
    match tab {
        Tab::Session => "Session"@,
        Tab::Agents => "Agents"@,
        Tab::Workers => "Workers"@,
        Tab::SpawnRequests => "Broker"@,
        Tab::Missions => "Missions"@,
        Tab::Tasks => "Tasks"@,
        Tab::Memory => "Memory"@,
        Tab::Approvals => "Approvals"@,
        Tab::Costs => "Costs"@,
        Tab::Policies => "Policies"@,
        Tab::Skills => "Skills"@,
        Tab::Artifacts => "Artifacts"@,
        Tab::Incidents => "Incidents"@,
    }
}

/// The title of a sidebar tab.
pub fn accordion_tab_name(tab: Tab) -> (s: &'static str)
    ensures
        s@ == tab_title(tab),
{
    match tab {
        Tab::Session => "Session",
        Tab::Agents => "Agents",
        Tab::Workers => "Workers",
        Tab::SpawnRequests => "Broker",
        Tab::Missions => "Missions",
        Tab::Tasks => "Tasks",
        Tab::Memory => "Memory",
        Tab::Approvals => "Approvals",
        Tab::Costs => "Costs",
        Tab::Policies => "Policies",
        Tab::Skills => "Skills",
        Tab::Artifacts => "Artifacts",
        Tab::Incidents => "Incidents",
    }
}

// ----- command palette -----
/// The commands of the palette: group, title, key binding and command.
pub open spec fn palette() -> Seq<(Seq<char>, Seq<char>, Seq<char>, Seq<char>)> {
    seq![
        ("Suggested"@, "Switch session"@, "ctrl+x l"@, "/session_switch"@),
        ("Suggested"@, "New session"@, "ctrl+x n"@, "/session_new"@),
        ("Suggested"@, "Switch model"@, "ctrl+x m"@, "/model_switch"@),
        ("Suggested"@, "Clear Cache, History & Context"@, ""@, "/clear_all"@),
        ("Suggested"@, "Share session"@, ""@, "/session_share"@),
        ("Session"@, "Switch session"@, "ctrl+x l"@, "/session_switch"@),
        ("Session"@, "New session"@, "ctrl+x n"@, "/session_new"@),
        ("Session"@, "Share session"@, ""@, "/session_share"@),
        ("Session"@, "Rename session"@, "ctrl+r"@, "/session_rename"@),
        ("System"@, "Clear Cache, History & Context"@, ""@, "/clear_all"@),
    ]
}

/// The texts of palette entries.
pub open spec fn palette_views(v: Seq<(String, String, String, String)>) -> Seq<
    (Seq<char>, Seq<char>, Seq<char>, Seq<char>),
> {
    Seq::new(v.len(), |i: int| (v[i].0@, v[i].1@, v[i].2@, v[i].3@))
}

fn palette_push(v: &mut Vec<(String, String, String, String)>, a: &str, b: &str, c: &str, d: &str)
    ensures
        palette_views(final(v)@) == palette_views(old(v)@).push((a@, b@, c@, d@)),
{
    let ghost before = palette_views(v@);
    v.push((String::from_str(a), String::from_str(b), String::from_str(c), String::from_str(d)));
    assert(palette_views(v@) =~= before.push((a@, b@, c@, d@)));
}

/// The entries of the command palette: the suggested commands, then the
/// session and system commands.
pub fn get_palette_items() -> (items: Vec<(String, String, String, String)>)
    ensures
        palette_views(items@) == palette(),
{
    let mut items: Vec<(String, String, String, String)> = Vec::new();
    palette_push(&mut items, "Suggested", "Switch session", "ctrl+x l", "/session_switch");
    palette_push(&mut items, "Suggested", "New session", "ctrl+x n", "/session_new");
    palette_push(&mut items, "Suggested", "Switch model", "ctrl+x m", "/model_switch");
    palette_push(&mut items, "Suggested", "Clear Cache, History & Context", "", "/clear_all");
    palette_push(&mut items, "Suggested", "Share session", "", "/session_share");
    palette_push(&mut items, "Session", "Switch session", "ctrl+x l", "/session_switch");
    palette_push(&mut items, "Session", "New session", "ctrl+x n", "/session_new");
    palette_push(&mut items, "Session", "Share session", "", "/session_share");
    palette_push(&mut items, "Session", "Rename session", "ctrl+r", "/session_rename");
    palette_push(&mut items, "System", "Clear Cache, History & Context", "", "/clear_all");
    assert(palette_views(items@) =~= palette());
    items
}

/// The environment variable of a provider's key: the built-in slot's, or
/// `<PROVIDER>_API_KEY` for a provider the catalog lacks.
pub fn provider_api_key_env(provider: &str) -> (r: String)
    ensures
        match catalog_index(provider@) {
            Some(i) => r@ == catalog_key_envs()[i],
            None => r@ == crate::text::uppercase_text(provider@) + "_API_KEY"@,
        },
{
    match get_provider_slot(provider) {
        Some(slot) => slot.api_key_env,
        None => {
            let mut r = crate::text::to_uppercase_string(provider);
            r.append("_API_KEY");
            r
        },
    }
}


} // verus!
