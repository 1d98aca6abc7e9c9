//! Greedy word wrapping of message text into lines of a given width.
use vstd::prelude::*;
use crate::text::owned;

verus! {

/// Whether a character is whitespace, as Unicode's White_Space property says.
pub uninterp spec fn is_space(c: char) -> bool;

/// Relies on `char::is_whitespace`: the test that `str::split_whitespace`
/// splits words on.
#[verifier::external_body]
fn whitespace(c: char) -> (r: bool)
    ensures
        r == is_space(c),
{
    c.is_whitespace()
}

/// Relies on `str::chars`, collected: the characters of the string in order.
#[verifier::external_body]
fn chars_of(s: &str) -> (r: Vec<char>)
    ensures
        r@ == s@,
{
    s.chars().collect()
}

/// Relies on `String`'s `FromIterator<char>`: the string of these characters.
#[verifier::external_body]
fn string_of(cs: &Vec<char>) -> (r: String)
    ensures
        r@ == cs@,
{
    cs.iter().collect()
}

/// The words of `t` after the partial word `cur`: the maximal runs of
/// non-whitespace characters, in order.
pub open spec fn words_after(t: Seq<char>, cur: Seq<char>) -> Seq<Seq<char>>
    decreases t.len(),
{
    if t.len() == 0 {
        if cur.len() > 0 {
            seq![cur]
        } else {
            Seq::empty()
        }
    } else if is_space(t[0]) {
        let rest = words_after(t.drop_first(), Seq::empty());
        if cur.len() > 0 {
            seq![cur] + rest
        } else {
            rest
        }
    } else {
        words_after(t.drop_first(), cur.push(t[0]))
    }
}

/// The words of `t`.
pub open spec fn words_of(t: Seq<char>) -> Seq<Seq<char>> {
    words_after(t, Seq::empty())
}

/// A word cut into pieces of `w` characters, the last one possibly shorter.
pub open spec fn chunks_of(word: Seq<char>, w: nat) -> Seq<Seq<char>>
    decreases word.len(),
{
    if word.len() == 0 || w == 0 {
        Seq::empty()
    } else if word.len() <= w {
        seq![word]
    } else {
        seq![word.subrange(0, w as int)] + chunks_of(word.subrange(w as int, word.len() as int), w)
    }
}

/// The finished lines and the line in progress after placing one word: it
/// joins the line in progress behind a blank when it fits; otherwise the
/// line in progress is finished and the word starts the next one. A word
/// longer than a whole line is cut into finished lines of its own.
pub open spec fn place_word(lines: Seq<Seq<char>>, cur: Seq<char>, word: Seq<char>, w: nat) -> (
    Seq<Seq<char>>,
    Seq<char>,
) {
    if cur.len() == 0 {
        if word.len() > w {
            (lines + chunks_of(word, w), Seq::empty())
        } else {
            (lines, word)
        }
    } else if cur.len() + 1 + word.len() <= w {
        (lines, cur + seq![' '] + word)
    } else if word.len() > w {
        (lines.push(cur) + chunks_of(word, w), Seq::empty())
    } else {
        (lines.push(cur), word)
    }
}

/// The state after placing every word in turn.
pub open spec fn place_words(
    lines: Seq<Seq<char>>,
    cur: Seq<char>,
    words: Seq<Seq<char>>,
    w: nat,
) -> (Seq<Seq<char>>, Seq<char>)
    decreases words.len(),
{
    if words.len() == 0 {
        (lines, cur)
    } else {
        let p = place_word(lines, cur, words[0], w);
        place_words(p.0, p.1, words.drop_first(), w)
    }
}

/// The lines of `text` wrapped to width `w`: whitespace runs become single
/// blanks between words on a line, and there is always at least one line.
/// A width of zero leaves the text as one line.
pub open spec fn wrapped(text: Seq<char>, w: nat) -> Seq<Seq<char>> {
    if w == 0 {
        seq![text]
    } else {
        let p = place_words(Seq::empty(), Seq::empty(), words_of(text), w);
        let all = if p.1.len() > 0 {
            p.0.push(p.1)
        } else {
            p.0
        };
        if all.len() == 0 {
            seq![Seq::empty()]
        } else {
            all
        }
    }
}

/// The words of a character sequence.
fn split_words(t: &Vec<char>) -> (r: Vec<Vec<char>>)
    ensures
        r@.len() == words_of(t@).len(),
        forall|k: int| 0 <= k < r@.len() ==> (#[trigger] r@[k])@ == words_of(t@)[k],
{
    let ghost full = words_of(t@);
    let ghost mut done: Seq<Seq<char>> = Seq::empty();
    let mut out: Vec<Vec<char>> = Vec::new();
    let mut cur: Vec<char> = Vec::new();
    let mut i: usize = 0;
    proof {
        assert(t@.subrange(0, t@.len() as int) =~= t@);
        assert(done + full =~= full);
    }
    while i < t.len()
        invariant
            i <= t@.len(),
            out@.len() == done.len(),
            forall|k: int| 0 <= k < out@.len() ==> (#[trigger] out@[k])@ == done[k],
            done + words_after(t@.subrange(i as int, t@.len() as int), cur@) == full,
        decreases t@.len() - i,
    {
        let c = t[i];
        let ghost rest = t@.subrange(i as int, t@.len() as int);
        proof {
            assert(rest.drop_first() =~= t@.subrange(i + 1, t@.len() as int));
            assert(rest[0] == c);
        }
        let ghost cur0 = cur@;
        if whitespace(c) {
            proof {
                assert(words_after(rest, cur0) == if cur0.len() > 0 {
                    seq![cur0] + words_after(rest.drop_first(), Seq::empty())
                } else {
                    words_after(rest.drop_first(), Seq::empty())
                });
            }
            if cur.len() > 0 {
                proof {
                    assert(done.push(cur@) + words_after(rest.drop_first(), Seq::empty()) =~= done
                        + (seq![cur@] + words_after(rest.drop_first(), Seq::empty())));
                    done = done.push(cur@);
                }
                out.push(cur);
                cur = Vec::new();
            } else {
                proof {
                    assert(cur0 =~= Seq::<char>::empty());
                }
            }
        } else {
            proof {
                assert(words_after(rest, cur0) == words_after(rest.drop_first(), cur0.push(c)));
            }
            cur.push(c);
        }
        proof {
            assert(done + words_after(rest.drop_first(), cur@) == full);
        }
        i += 1;
    }
    proof {
        let rest = t@.subrange(i as int, t@.len() as int);
        assert(rest.len() == 0);
    }
    if cur.len() > 0 {
        proof {
            assert(done + seq![cur@] =~= done.push(cur@));
            done = done.push(cur@);
        }
        out.push(cur);
    } else {
        proof {
            assert(done + Seq::<Seq<char>>::empty() =~= done);
        }
    }
    out
}

/// Appends the pieces of `word`, `w` characters each, as finished lines.
fn push_chunks(lines: &mut Vec<String>, word: &Vec<char>, w: usize, Ghost(before): Ghost<Seq<Seq<char>>>)
    requires
        w > 0,
        old(lines)@.len() == before.len(),
        forall|k: int| 0 <= k < before.len() ==> (#[trigger] old(lines)@[k])@ == before[k],
    ensures
        final(lines)@.len() == (before + chunks_of(word@, w as nat)).len(),
        forall|k: int|
            0 <= k < final(lines)@.len() ==> (#[trigger] final(lines)@[k])@ == (before + chunks_of(
                word@,
                w as nat,
            ))[k],
{
    let ghost target = before + chunks_of(word@, w as nat);
    let ghost mut acc = before;
    let n = word.len();
    let mut start: usize = 0;
    proof {
        assert(word@.subrange(0, n as int) =~= word@);
    }
    while start < n
        invariant
            w > 0,
            n == word@.len(),
            start <= n,
            lines@.len() == acc.len(),
            forall|k: int| 0 <= k < acc.len() ==> (#[trigger] lines@[k])@ == acc[k],
            acc + chunks_of(word@.subrange(start as int, n as int), w as nat) == target,
        decreases n - start,
    {
        let end = if n - start > w {
            start + w
        } else {
            n
        };
        let mut piece: Vec<char> = Vec::new();
        let mut j: usize = start;
        while j < end
            invariant
                start <= j <= end <= n,
                n == word@.len(),
                piece@ == word@.subrange(start as int, j as int),
            decreases end - j,
        {
            piece.push(word[j]);
            proof {
                assert(piece@ =~= word@.subrange(start as int, j + 1));
            }
            j += 1;
        }
        proof {
            let rest = word@.subrange(start as int, n as int);
            if n - start > w {
                assert(rest.subrange(0, w as int) =~= piece@);
                assert(rest.subrange(w as int, rest.len() as int) =~= word@.subrange(
                    end as int,
                    n as int,
                ));
                assert(acc.push(piece@) + chunks_of(word@.subrange(end as int, n as int), w as nat)
                    =~= acc + (seq![piece@] + chunks_of(
                    word@.subrange(end as int, n as int),
                    w as nat,
                )));
            } else {
                assert(rest =~= piece@);
                assert(word@.subrange(end as int, n as int).len() == 0);
                assert(acc.push(piece@) + chunks_of(word@.subrange(end as int, n as int), w as nat)
                    =~= acc + seq![piece@]);
            }
            acc = acc.push(piece@);
        }
        lines.push(string_of(&piece));
        start = end;
    }
    proof {
        assert(word@.subrange(start as int, n as int).len() == 0);
        assert(acc + Seq::<Seq<char>>::empty() =~= acc);
    }
}

/// `dst` followed by `src`.
fn append_chars(dst: &mut Vec<char>, src: &Vec<char>)
    ensures
        final(dst)@ == old(dst)@ + src@,
{
    let mut i: usize = 0;
    while i < src.len()
        invariant
            i <= src@.len(),
            dst@ == old(dst)@ + src@.subrange(0, i as int),
        decreases src@.len() - i,
    {
        dst.push(src[i]);
        proof {
            assert(dst@ =~= old(dst)@ + src@.subrange(0, i + 1));
        }
        i += 1;
    }
    proof {
        assert(src@.subrange(0, src@.len() as int) =~= src@);
    }
}

/// Wraps `text` into lines of at most `max_width` characters, breaking at
/// whitespace and cutting words longer than a line.
pub fn wrap_text(text: &str, max_width: usize) -> (r: Vec<String>)
    ensures
        r@.len() == wrapped(text@, max_width as nat).len(),
        forall|k: int| 0 <= k < r@.len() ==> (#[trigger] r@[k])@ == wrapped(text@, max_width as nat)[k],
{
    if max_width == 0 {
        let mut one: Vec<String> = Vec::new();
        one.push(owned(text));
        return one;
    }
    let chars = chars_of(text);
    let words = split_words(&chars);
    let ghost ws = words_of(text@);
    let ghost w = max_width as nat;
    let ghost target = place_words(Seq::empty(), Seq::empty(), ws, w);
    let ghost mut gl: Seq<Seq<char>> = Seq::empty();
    let mut lines: Vec<String> = Vec::new();
    let mut cur: Vec<char> = Vec::new();
    let mut i: usize = 0;
    proof {
        assert(ws.subrange(0, ws.len() as int) =~= ws);
    }
    while i < words.len()
        invariant
            max_width > 0,
            w == max_width as nat,
            words@.len() == ws.len(),
            forall|k: int| 0 <= k < words@.len() ==> (#[trigger] words@[k])@ == ws[k],
            i <= words@.len(),
            lines@.len() == gl.len(),
            forall|k: int| 0 <= k < gl.len() ==> (#[trigger] lines@[k])@ == gl[k],
            place_words(gl, cur@, ws.subrange(i as int, ws.len() as int), w) == target,
        decreases words@.len() - i,
    {
        let word = &words[i];
        let ghost rest = ws.subrange(i as int, ws.len() as int);
        proof {
            assert(rest[0] == word@);
            assert(rest.drop_first() =~= ws.subrange(i + 1, ws.len() as int));
        }
        let ghost placed = place_word(gl, cur@, word@, w);
        let word_len = word.len();
        let cur_len = cur.len();
        if cur_len == 0 {
            if word_len > max_width {
                push_chunks(&mut lines, word, max_width, Ghost(gl));
                proof {
                    gl = gl + chunks_of(word@, w);
                }
            } else {
                cur = word.clone();
            }
        } else if cur_len < max_width && word_len < max_width - cur_len {
            cur.push(' ');
            append_chars(&mut cur, word);
        } else {
            lines.push(string_of(&cur));
            proof {
                gl = gl.push(cur@);
            }
            if word_len > max_width {
                push_chunks(&mut lines, word, max_width, Ghost(gl));
                proof {
                    gl = gl + chunks_of(word@, w);
                }
                cur = Vec::new();
            } else {
                cur = word.clone();
            }
        }
        proof {
            assert(gl == placed.0);
            assert(cur@ =~= placed.1);
        }
        i += 1;
    }
    proof {
        assert(ws.subrange(i as int, ws.len() as int).len() == 0);
    }
    if cur.len() > 0 {
        lines.push(string_of(&cur));
        proof {
            gl = gl.push(cur@);
        }
    }
    if lines.len() == 0 {
        lines.push(String::new());
        proof {
            gl = gl.push(Seq::empty());
        }
    }
    proof {
        assert(gl =~= wrapped(text@, w));
    }
    lines
}

} // verus!
