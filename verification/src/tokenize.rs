//! Whitespace tokenization of an input line into a command verb and its
//! arguments.

use vstd::prelude::*;

verus! {

/// The characters treated as token separators: the Unicode White_Space set.
pub open spec fn is_space(c: char) -> bool {
    c == ' ' || c == '\t' || c == '\n' || c == '\x0b' || c == '\x0c' || c == '\r'
        || c == '\u{85}' || c == '\u{a0}' || c == '\u{1680}'
        || c == '\u{2000}' || c == '\u{2001}' || c == '\u{2002}' || c == '\u{2003}'
        || c == '\u{2004}' || c == '\u{2005}' || c == '\u{2006}' || c == '\u{2007}'
        || c == '\u{2008}' || c == '\u{2009}' || c == '\u{200a}'
        || c == '\u{2028}' || c == '\u{2029}' || c == '\u{202f}' || c == '\u{205f}'
        || c == '\u{3000}'
}

/// Every character of `s` is a separator.
pub open spec fn all_space(s: Seq<char>) -> bool {
    forall|i: int| 0 <= i < s.len() ==> is_space(#[trigger] s[i])
}

/// No character of `s` is a separator.
pub open spec fn no_space(s: Seq<char>) -> bool {
    forall|i: int| 0 <= i < s.len() ==> !is_space(#[trigger] s[i])
}

/// The tokens of `s`, given that the characters of `cur` (a partial token,
/// free of separators) immediately precede `s`: separators flush the partial
/// token, other characters extend it.
pub open spec fn tokens_acc(s: Seq<char>, cur: Seq<char>) -> Seq<Seq<char>>
    decreases s.len(),
{
    if s.len() == 0 {
        if cur.len() > 0 {
            seq![cur]
        } else {
            Seq::empty()
        }
    } else if is_space(s[0]) {
        if cur.len() > 0 {
            seq![cur] + tokens_acc(s.skip(1), Seq::empty())
        } else {
            tokens_acc(s.skip(1), Seq::empty())
        }
    } else {
        tokens_acc(s.skip(1), cur.push(s[0]))
    }
}

/// The maximal separator-free runs of `s`, in order.
pub open spec fn tokens(s: Seq<char>) -> Seq<Seq<char>> {
    tokens_acc(s, Seq::empty())
}

/// `ts` joined into one line: `seps[k]` stands between `ts[k]` and
/// `ts[k + 1]`.
pub open spec fn join_ws(ts: Seq<Seq<char>>, seps: Seq<Seq<char>>) -> Seq<char>
    decreases ts.len(),
{
    if ts.len() == 0 {
        Seq::empty()
    } else if ts.len() == 1 {
        ts[0]
    } else {
        ts[0] + seps[0] + join_ws(ts.skip(1), seps.skip(1))
    }
}

proof fn lemma_tokens_acc_all_space(s: Seq<char>, cur: Seq<char>)
    requires
        all_space(s),
    ensures
        tokens_acc(s, cur) == if cur.len() > 0 {
            seq![cur]
        } else {
            Seq::<Seq<char>>::empty()
        },
    decreases s.len(),
{
    if s.len() > 0 {
        assert(is_space(s[0]));
        assert forall|i: int| 0 <= i < s.skip(1).len() implies is_space(#[trigger] s.skip(1)[i]) by {
            assert(s.skip(1)[i] == s[i + 1]);
        }
        lemma_tokens_acc_all_space(s.skip(1), Seq::empty());
        if cur.len() > 0 {
            assert(seq![cur] + Seq::<Seq<char>>::empty() =~= seq![cur]);
        }
    }
}

/// Tokenizing a string of separators alone yields no tokens at all: an empty
/// verb and an empty argument list.
pub proof fn lemma_tokens_all_space(s: Seq<char>)
    requires
        all_space(s),
    ensures
        tokens(s) == Seq::<Seq<char>>::empty(),
{
    lemma_tokens_acc_all_space(s, Seq::empty());
}

proof fn lemma_tokens_acc_accumulate(t: Seq<char>, s: Seq<char>, cur: Seq<char>)
    requires
        no_space(t),
    ensures
        tokens_acc(t + s, cur) == tokens_acc(s, cur + t),
    decreases t.len(),
{
    if t.len() == 0 {
        assert(t + s =~= s);
        assert(cur + t =~= cur);
    } else {
        assert((t + s)[0] == t[0]);
        assert(!is_space(t[0]));
        assert((t + s).skip(1) =~= t.skip(1) + s);
        assert forall|i: int| 0 <= i < t.skip(1).len() implies !is_space(
            #[trigger] t.skip(1)[i],
        ) by {
            assert(t.skip(1)[i] == t[i + 1]);
        }
        lemma_tokens_acc_accumulate(t.skip(1), s, cur.push(t[0]));
        assert(cur.push(t[0]) + t.skip(1) =~= cur + t);
    }
}

proof fn lemma_tokens_acc_space_prefix(w: Seq<char>, s: Seq<char>)
    requires
        all_space(w),
    ensures
        tokens_acc(w + s, Seq::empty()) == tokens_acc(s, Seq::empty()),
    decreases w.len(),
{
    if w.len() == 0 {
        assert(w + s =~= s);
    } else {
        assert((w + s)[0] == w[0]);
        assert(is_space(w[0]));
        assert((w + s).skip(1) =~= w.skip(1) + s);
        assert forall|i: int| 0 <= i < w.skip(1).len() implies is_space(#[trigger] w.skip(1)[i]) by {
            assert(w.skip(1)[i] == w[i + 1]);
        }
        lemma_tokens_acc_space_prefix(w.skip(1), s);
    }
}

proof fn lemma_tokens_acc_flush(w: Seq<char>, s: Seq<char>, cur: Seq<char>)
    requires
        all_space(w),
        w.len() > 0,
        cur.len() > 0,
    ensures
        tokens_acc(w + s, cur) == seq![cur] + tokens_acc(s, Seq::empty()),
{
    assert((w + s)[0] == w[0]);
    assert(is_space(w[0]));
    assert((w + s).skip(1) =~= w.skip(1) + s);
    assert forall|i: int| 0 <= i < w.skip(1).len() implies is_space(#[trigger] w.skip(1)[i]) by {
        assert(w.skip(1)[i] == w[i + 1]);
    }
    lemma_tokens_acc_space_prefix(w.skip(1), s);
}

/// Round trip of tokenization: any sequence of nonempty, separator-free
/// tokens, written out with arbitrary whitespace before, between and after
/// them, tokenizes back to exactly that sequence. Joining with single spaces
/// is the special case where every separator is one space and the ends are
/// bare.
pub proof fn lemma_tokenize_round_trip(
    lead: Seq<char>,
    ts: Seq<Seq<char>>,
    seps: Seq<Seq<char>>,
    trail: Seq<char>,
)
    requires
        ts.len() > 0,
        forall|k: int| 0 <= k < ts.len() ==> (#[trigger] ts[k]).len() > 0 && no_space(ts[k]),
        seps.len() == ts.len() - 1,
        forall|k: int| 0 <= k < seps.len() ==> (#[trigger] seps[k]).len() > 0 && all_space(seps[k]),
        all_space(lead),
        all_space(trail),
    ensures
        tokens(lead + join_ws(ts, seps) + trail) == ts,
    decreases ts.len(),
{
    assert(lead + join_ws(ts, seps) + trail =~= lead + (join_ws(ts, seps) + trail));
    lemma_tokens_acc_space_prefix(lead, join_ws(ts, seps) + trail);
    if ts.len() == 1 {
        lemma_tokens_acc_accumulate(ts[0], trail, Seq::empty());
        assert(Seq::<char>::empty() + ts[0] =~= ts[0]);
        lemma_tokens_acc_all_space(trail, ts[0]);
        assert(seq![ts[0]] =~= ts);
    } else {
        let rest = join_ws(ts.skip(1), seps.skip(1));
        assert(join_ws(ts, seps) + trail =~= ts[0] + (seps[0] + (rest + trail)));
        lemma_tokens_acc_accumulate(ts[0], seps[0] + (rest + trail), Seq::empty());
        assert(Seq::<char>::empty() + ts[0] =~= ts[0]);
        lemma_tokens_acc_flush(seps[0], rest + trail, ts[0]);
        assert forall|k: int| 0 <= k < ts.skip(1).len() implies (#[trigger] ts.skip(1)[k]).len() > 0
            && no_space(ts.skip(1)[k]) by {
            assert(ts.skip(1)[k] == ts[k + 1]);
        }
        assert forall|k: int| 0 <= k < seps.skip(1).len() implies (#[trigger] seps.skip(
            1,
        )[k]).len() > 0 && all_space(seps.skip(1)[k]) by {
            assert(seps.skip(1)[k] == seps[k + 1]);
        }
        lemma_tokenize_round_trip(Seq::empty(), ts.skip(1), seps.skip(1), trail);
        assert(Seq::<char>::empty() + rest + trail =~= rest + trail);
        assert(seq![ts[0]] + ts.skip(1) =~= ts);
    }
}

/// The plain round trip: nonempty, separator-free tokens joined by single
/// spaces tokenize back to exactly that sequence.
pub proof fn lemma_tokenize_single_space_join(ts: Seq<Seq<char>>)
    requires
        ts.len() > 0,
        wf_tokens(ts),
    ensures
        tokens(join_ws(ts, Seq::new((ts.len() - 1) as nat, |k: int| seq![' ']))) == ts,
{
    let seps = Seq::new((ts.len() - 1) as nat, |k: int| seq![' ']);
    assert forall|k: int| 0 <= k < seps.len() implies (#[trigger] seps[k]).len() > 0 && all_space(
        seps[k],
    ) by {
        assert(seps[k] == seq![' ']);
        assert forall|i: int| 0 <= i < seps[k].len() implies is_space(#[trigger] seps[k][i]) by {
            assert(seps[k][i] == ' ');
        }
    }
    lemma_tokenize_round_trip(Seq::empty(), ts, seps, Seq::empty());
    assert(Seq::<char>::empty() + join_ws(ts, seps) + Seq::<char>::empty() =~= join_ws(ts, seps));
}

/// Each element of `tss` is a nonempty, separator-free token.
pub open spec fn wf_tokens(tss: Seq<Seq<char>>) -> bool {
    forall|k: int| 0 <= k < tss.len() ==> (#[trigger] tss[k]).len() > 0 && no_space(tss[k])
}

proof fn lemma_tokens_acc_wf(s: Seq<char>, cur: Seq<char>)
    requires
        no_space(cur),
    ensures
        wf_tokens(tokens_acc(s, cur)),
    decreases s.len(),
{
    let whole = tokens_acc(s, cur);
    if s.len() == 0 {
        if cur.len() > 0 {
            assert(whole == seq![cur]);
            assert(whole[0] == cur);
        }
    } else if is_space(s[0]) {
        let rest = tokens_acc(s.skip(1), Seq::<char>::empty());
        lemma_tokens_acc_wf(s.skip(1), Seq::empty());
        if cur.len() > 0 {
            assert(whole == seq![cur] + rest);
            assert forall|k: int| 0 <= k < whole.len() implies (#[trigger] whole[k]).len() > 0
                && no_space(whole[k]) by {
                if k == 0 {
                    assert(whole[k] == cur);
                } else {
                    assert(whole[k] == rest[k - 1]);
                }
            }
        } else {
            assert(whole == rest);
        }
    } else {
        assert forall|i: int| 0 <= i < cur.push(s[0]).len() implies !is_space(
            #[trigger] cur.push(s[0])[i],
        ) by {
            if i < cur.len() {
                assert(cur.push(s[0])[i] == cur[i]);
            } else {
                assert(cur.push(s[0])[i] == s[0]);
            }
        }
        lemma_tokens_acc_wf(s.skip(1), cur.push(s[0]));
        assert(whole == tokens_acc(s.skip(1), cur.push(s[0])));
    }
}

/// Every token of any string is nonempty and free of separators.
pub proof fn lemma_tokens_wf(s: Seq<char>)
    ensures
        wf_tokens(tokens(s)),
{
    lemma_tokens_acc_wf(s, Seq::empty());
}

/// Decides whether `c` is a token separator.
pub fn is_space_char(c: char) -> (b: bool)
    ensures
        b == is_space(c),
{
    c == ' ' || c == '\t' || c == '\n' || c == '\x0b' || c == '\x0c' || c == '\r'
        || c == '\u{85}' || c == '\u{a0}' || c == '\u{1680}'
        || c == '\u{2000}' || c == '\u{2001}' || c == '\u{2002}' || c == '\u{2003}'
        || c == '\u{2004}' || c == '\u{2005}' || c == '\u{2006}' || c == '\u{2007}'
        || c == '\u{2008}' || c == '\u{2009}' || c == '\u{200a}'
        || c == '\u{2028}' || c == '\u{2029}' || c == '\u{202f}' || c == '\u{205f}'
        || c == '\u{3000}'
}

/// Splits `line` on whitespace into a verb (the first token, or the empty
/// string if there is none) and the remaining tokens as arguments.
pub fn parse_cmd(line: &str) -> (r: (String, Vec<String>))
    ensures
        tokens(line@).len() == 0 ==> r.0@ == Seq::<char>::empty() && r.1@.len() == 0,
        tokens(line@).len() > 0 ==> r.0@ == tokens(line@)[0] && r.1.deep_view()
            == tokens(line@).skip(1),
{
    let n = line.unicode_len();
    let mut toks: Vec<String> = Vec::new();
    let mut start: usize = 0;
    let mut in_token: bool = false;
    let mut i: usize = 0;
    proof {
        assert(toks.deep_view() =~= Seq::<Seq<char>>::empty());
        assert(line@.skip(0) =~= line@);
        assert(toks.deep_view() + tokens_acc(line@, Seq::<char>::empty()) =~= tokens(line@));
    }
    while i < n
        invariant
            n == line@.len(),
            i <= n,
            in_token ==> start < i,
            in_token ==> no_space(line@.subrange(start as int, i as int)),
            tokens(line@) == toks.deep_view() + tokens_acc(
                line@.skip(i as int),
                if in_token {
                    line@.subrange(start as int, i as int)
                } else {
                    Seq::<char>::empty()
                },
            ),
        decreases n - i,
    {
        let ghost rem = line@.skip(i as int);
        let ghost cur = if in_token {
            line@.subrange(start as int, i as int)
        } else {
            Seq::<char>::empty()
        };
        proof {
            assert(rem[0] == line@[i as int]);
            assert(rem.skip(1) =~= line@.skip(i as int + 1));
        }
        let c = line.get_char(i);
        if is_space_char(c) {
            if in_token {
                let t = line.substring_char(start, i);
                let ghost old_toks = toks.deep_view();
                toks.push(t.to_owned());
                proof {
                    assert(toks.deep_view() =~= old_toks.push(cur));
                    assert(old_toks + tokens_acc(rem, cur) =~= toks.deep_view() + tokens_acc(
                        rem.skip(1),
                        Seq::<char>::empty(),
                    ));
                }
                in_token = false;
            }
        } else {
            if !in_token {
                start = i;
                in_token = true;
            }
            proof {
                assert(line@.subrange(start as int, i as int + 1) =~= cur.push(line@[i as int]));
            }
        }
        i += 1;
    }
    proof {
        assert(line@.skip(n as int) =~= Seq::<char>::empty());
    }
    if in_token {
        let t = line.substring_char(start, n);
        let ghost old_toks = toks.deep_view();
        let ghost cur = line@.subrange(start as int, n as int);
        toks.push(t.to_owned());
        proof {
            assert(toks.deep_view() =~= old_toks.push(cur));
            assert(tokens(line@) =~= toks.deep_view());
        }
    }
    proof {
        assert(tokens(line@) =~= toks.deep_view());
    }
    if toks.len() == 0 {
        (String::new(), toks)
    } else {
        let ghost before = toks.deep_view();
        let cmd = toks.remove(0);
        proof {
            assert(toks.deep_view() =~= before.skip(1));
        }
        (cmd, toks)
    }
}

/// Forwards to the tokenizer under a stable name for the test suite.
pub fn test_wrapper_parse_cmd(line: &str) -> (r: (String, Vec<String>))
    ensures
        tokens(line@).len() == 0 ==> r.0@ == Seq::<char>::empty() && r.1@.len() == 0,
        tokens(line@).len() > 0 ==> r.0@ == tokens(line@)[0] && r.1.deep_view()
            == tokens(line@).skip(1),
{
    parse_cmd(line)
}

} // verus!

