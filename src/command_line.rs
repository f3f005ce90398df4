use vstd::prelude::*;
use crate::text::{is_blank, push_char};

verus! {

/// Scanner state after a prefix of a command line: the finished words, the
/// word being built, and whether a double quote is open.
pub open spec fn split_state(s: Seq<char>) -> (Seq<Seq<char>>, Seq<char>, bool)
    decreases s.len(),
{
    if s.len() == 0 {
        (Seq::empty(), Seq::empty(), false)
    } else {
        let (words, cur, quoted) = split_state(s.drop_last());
        let c = s.last();
        if c == '"' {
            (words, cur, !quoted)
        } else if is_blank(c) && !quoted {
            if cur.len() > 0 {
                (words.push(cur), Seq::empty(), quoted)
            } else {
                (words, cur, quoted)
            }
        } else {
            (words, cur.push(c), quoted)
        }
    }
}

/// The words of a command line: a double quote toggles quoting, a space or
/// tab outside quotes ends a word, every other character is kept, and empty
/// words are dropped.
pub open spec fn split_args(s: Seq<char>) -> Seq<Seq<char>> {
    let (words, cur, _) = split_state(s);
    if cur.len() > 0 {
        words.push(cur)
    } else {
        words
    }
}

/// Words joined by single spaces.
pub open spec fn join_words(ws: Seq<Seq<char>>) -> Seq<char>
    decreases ws.len(),
{
    if ws.len() == 0 {
        Seq::empty()
    } else if ws.len() == 1 {
        ws[0]
    } else {
        join_words(ws.drop_last()) + seq![' '] + ws.last()
    }
}

/// `s` with leading and trailing blanks removed and every inner run of
/// blanks replaced by one space.
pub open spec fn collapse_blanks(s: Seq<char>) -> Seq<char>
    decreases s.len(),
{
    if s.len() == 0 {
        Seq::empty()
    } else {
        let p = collapse_blanks(s.drop_last());
        let c = s.last();
        if is_blank(c) {
            p
        } else if s.len() >= 2 && is_blank(s[s.len() - 2]) && p.len() > 0 {
            p + seq![' ', c]
        } else {
            p.push(c)
        }
    }
}

pub open spec fn has_quote(s: Seq<char>) -> bool {
    exists|i: int| 0 <= i < s.len() && s[i] == '"'
}

pub open spec fn views_of(v: Seq<String>) -> Seq<Seq<char>> {
    v.map_values(|a: String| a@)
}

proof fn lemma_join_push(ws: Seq<Seq<char>>, w: Seq<char>)
    ensures
        join_words(ws.push(w)) == (if ws.len() == 0 {
            w
        } else {
            join_words(ws) + seq![' '] + w
        }),
{
    assert(ws.push(w).drop_last() =~= ws);
}

proof fn lemma_split_quote_free(s: Seq<char>)
    requires
        !has_quote(s),
    ensures
        split_state(s).2 == false,
        (split_state(s).1.len() > 0) == (s.len() > 0 && !is_blank(s.last())),
        forall|k: int| 0 <= k < split_state(s).0.len() ==> (#[trigger] split_state(s).0[k]).len() > 0,
        join_words(split_args(s)) == collapse_blanks(s),
        (collapse_blanks(s).len() > 0) == (split_args(s).len() > 0),
    decreases s.len(),
{
    if s.len() > 0 {
        let p = s.drop_last();
        assert(!has_quote(p)) by {
            if has_quote(p) {
                let i = choose|i: int| 0 <= i < p.len() && p[i] == '"';
                assert(s[i] == '"');
            }
        }
        lemma_split_quote_free(p);
        let (words, cur, quoted) = split_state(p);
        let c = s.last();
        assert(c != '"') by {
            assert(s[s.len() - 1] == c);
        }
        if p.len() > 0 {
            assert(s[s.len() - 2] == p.last());
        }
        if is_blank(c) {
            if cur.len() > 0 {
                assert(forall|k: int|
                    0 <= k < words.push(cur).len() ==> (#[trigger] words.push(cur)[k]).len() > 0) by {
                    assert forall|k: int| 0 <= k < words.push(cur).len() implies (#[trigger] words.push(
                        cur,
                    )[k]).len() > 0 by {
                        if k < words.len() {
                            assert(words.push(cur)[k] == words[k]);
                        }
                    }
                }
            }
        } else {
            lemma_join_push(words, cur.push(c));
            if cur.len() > 0 {
                lemma_join_push(words, cur);
                assert(join_words(words.push(cur.push(c))) =~= join_words(words.push(cur)).push(c));
            } else {
                if words.len() > 0 {
                    assert(words[words.len() - 1].len() > 0);
                    lemma_join_push(words.drop_last(), words.last());
                    assert(words.drop_last().push(words.last()) =~= words);
                }
                assert(cur.push(c) =~= seq![c]);
                assert(join_words(words) + seq![' '] + seq![c] =~= join_words(words) + seq![' ', c]);
            }
        }
    }
}

/// For text without double quotes, joining its words with single spaces
/// gives the text with outer blanks removed and inner runs of blanks
/// collapsed to one space.
pub proof fn lemma_join_of_split_collapses_blanks(s: Seq<char>)
    requires
        !has_quote(s),
    ensures
        join_words(split_args(s)) == collapse_blanks(s),
{
    lemma_split_quote_free(s);
}

/// Splits a parameter string into program arguments.
pub fn parse_command_line(input: &str) -> (args: Vec<String>)
    ensures
        views_of(args@) == split_args(input@),
{
    let mut args: Vec<String> = Vec::new();
    let mut current = String::new();
    let mut in_quotes = false;
    let n = input.unicode_len();
    let mut i: usize = 0;
    while i < n
        invariant
            n == input@.len(),
            i <= n,
            split_state(input@.subrange(0, i as int)) == (views_of(args@), current@, in_quotes),
        decreases n - i,
    {
        let c = input.get_char(i);
        proof {
            assert(input@.subrange(0, i + 1).drop_last() =~= input@.subrange(0, i as int));
        }
        if c == '"' {
            in_quotes = !in_quotes;
        } else if (c == ' ' || c == '\t') && !in_quotes {
            if current.unicode_len() > 0 {
                let ghost before = args@;
                let ghost word = current@;
                args.push(current);
                current = String::new();
                proof {
                    assert(views_of(args@) =~= views_of(before).push(word));
                }
            }
        } else {
            push_char(&mut current, c);
        }
        i += 1;
    }
    if current.unicode_len() > 0 {
        let ghost before = args@;
        let ghost word = current@;
        args.push(current);
        proof {
            assert(views_of(args@) =~= views_of(before).push(word));
        }
    }
    proof {
        assert(input@.subrange(0, n as int) =~= input@);
    }
    args
}

} // verus!
