use vstd::prelude::*;

use crate::text::chars_of;

verus! {

/// A token of a model's answer with its log probability, given by the bits of
/// the 64-bit floating-point number.
#[derive(Debug, Clone, PartialEq)]
pub struct TokenLogProbs {
    pub token: String,
    pub logprob_bits: u64,
}

/// The log probabilities of the tokens of an answer.
#[derive(Debug, Clone, PartialEq)]
pub struct ResponseLogProbs {
    pub tokens: Vec<TokenLogProbs>,
}

/// A token of one ASCII digit, the kind of token that a score is read from.
pub open spec fn digit_token(t: Seq<char>) -> bool {
    t.len() == 1 && '0' <= t[0] <= '9'
}

/// Whether `token` is one ASCII digit.
pub fn is_digit_token(token: &str) -> (r: bool)
    ensures
        r == digit_token(token@),
{
    let c = chars_of(token);
    c.len() == 1 && '0' <= c[0] && c[0] <= '9'
}

/// The value of a sequence of decimal digits.
pub open spec fn decimal_value(d: Seq<char>) -> int
    decreases d.len(),
{
    if d.len() == 0 {
        0
    } else {
        decimal_value(d.drop_last()) * 10 + (d.last() as int - '0' as int)
    }
}

/// The digits of an unsigned number in text: the text after an optional `+`.
pub open spec fn unsigned_digits(s: Seq<char>) -> Seq<char> {
    if s.len() > 0 && s[0] == '+' {
        s.skip(1)
    } else {
        s
    }
}

/// What reading `s` as a `u64` gives: an optional `+`, then at least one decimal
/// digit and nothing else, for a value that fits.
pub open spec fn parse_u64_spec(s: Seq<char>) -> Option<int> {
    let d = unsigned_digits(s);
    if d.len() > 0 && (forall|i: int| 0 <= i < d.len() ==> '0' <= #[trigger] d[i] <= '9') && decimal_value(d) <= u64::MAX {
        Some(decimal_value(d))
    } else {
        None
    }
}

proof fn lemma_decimal_monotone(d: Seq<char>, k: int)
    requires
        0 <= k <= d.len(),
        forall|i: int| 0 <= i < d.len() ==> '0' <= #[trigger] d[i] <= '9',
    ensures
        decimal_value(d.take(k)) <= decimal_value(d),
        decimal_value(d) >= 0,
    decreases d.len(),
{
    if d.len() > 0 {
        let e = d.drop_last();
        assert forall|i: int| 0 <= i < e.len() implies '0' <= #[trigger] e[i] <= '9' by {
            assert(e[i] == d[i]);
        }
        if k == d.len() {
            assert(d.take(k) =~= d);
            lemma_decimal_monotone(e, 0);
        } else {
            lemma_decimal_monotone(e, k);
            assert(e.take(k) =~= d.take(k));
        }
    } else {
        assert(d.take(k) =~= d);
    }
}

/// Reads `s` as a `u64` in the way of `str::parse::<u64>`.
pub fn parse_u64(s: &str) -> (r: Option<u64>)
    ensures
        match parse_u64_spec(s@) {
            Some(v) => r == Some(v as u64),
            None => r is None,
        },
        r matches Some(x) ==> parse_u64_spec(s@) == Some(x as int),
{
    let c = chars_of(s);
    let start: usize = if c.len() > 0 && c[0] == '+' { 1 } else { 0 };
    let ghost d = unsigned_digits(s@);
    proof {
        assert(d =~= c@.skip(start as int));
    }
    if start >= c.len() {
        return None;
    }
    let mut i: usize = start;
    let mut acc: u64 = 0;
    while i < c.len()
        invariant
            c@ == s@,
            d == c@.skip(start as int),
            d == unsigned_digits(s@),
            start <= i <= c@.len(),
            forall|k: int| 0 <= k < i - start ==> '0' <= #[trigger] d[k] <= '9',
            acc as int == decimal_value(d.take(i - start)),
        decreases c@.len() - i,
    {
        let ch = c[i];
        if !('0' <= ch && ch <= '9') {
            proof {
                assert(d[i - start] == ch);
            }
            return None;
        }
        let digit: u64 = (ch as u32 - '0' as u32) as u64;
        proof {
            assert(d.take(i - start + 1).drop_last() =~= d.take(i - start));
            assert(d.take(i - start + 1).last() == ch);
        }
        match acc.checked_mul(10) {
            Some(m) => match m.checked_add(digit) {
                Some(v) => {
                    acc = v;
                },
                None => {
                    proof {
                        assert forall|k: int| 0 <= k < d.len() implies '0' <= #[trigger] d[k] <= '9' || !(forall|j: int|
                            0 <= j < d.len() ==> '0' <= #[trigger] d[j] <= '9') by {}
                        if forall|j: int| 0 <= j < d.len() ==> '0' <= #[trigger] d[j] <= '9' {
                            lemma_decimal_monotone(d, i - start + 1);
                        }
                    }
                    return None;
                },
            },
            None => {
                proof {
                    if forall|j: int| 0 <= j < d.len() ==> '0' <= #[trigger] d[j] <= '9' {
                        lemma_decimal_monotone(d, i - start + 1);
                    }
                }
                return None;
            },
        }
        i = i + 1;
    }
    proof {
        assert(d.take(i - start) =~= d);
        lemma_decimal_monotone(d, 0);
    }
    Some(acc)
}

/// The scores from one to five among the tokens, each with its log probability, in order.
pub open spec fn score_entries(tokens: Seq<TokenLogProbs>) -> Seq<(u64, u64)>
    decreases tokens.len(),
{
    if tokens.len() == 0 {
        Seq::empty()
    } else {
        let rest = score_entries(tokens.drop_last());
        let t = tokens.last();
        match parse_u64_spec(t.token@) {
            Some(v) => if 1 <= v <= 5 {
                rest.push((v as u64, t.logprob_bits))
            } else {
                rest
            },
            None => rest,
        }
    }
}

/// What one token contributes to the scores: an entry of its value and log
/// probability when it reads as a number from one to five, nothing otherwise.
pub open spec fn token_score(t: TokenLogProbs) -> Seq<(u64, u64)> {
    match parse_u64_spec(t.token@) {
        Some(v) => if 1 <= v <= 5 {
            seq![(v as u64, t.logprob_bits)]
        } else {
            Seq::empty()
        },
        None => Seq::empty(),
    }
}

/// The scores of one token are what that token contributes.
pub proof fn lemma_score_entries_single(t: TokenLogProbs)
    ensures
        score_entries(seq![t]) == token_score(t),
{
    assert(seq![t].drop_last() =~= Seq::<TokenLogProbs>::empty());
    assert(seq![t].last() == t);
    assert(score_entries(Seq::<TokenLogProbs>::empty()) =~= Seq::<(u64, u64)>::empty());
    assert(score_entries(seq![t]) == score_entries(Seq::<TokenLogProbs>::empty()) + token_score(t));
    assert(score_entries(seq![t]) =~= token_score(t));
}

/// The scores of two runs of tokens one after the other are the scores of the
/// first run followed by those of the second: each token is read on its own,
/// and the order of the tokens is kept.
pub proof fn lemma_score_entries_concat(a: Seq<TokenLogProbs>, b: Seq<TokenLogProbs>)
    ensures
        score_entries(a + b) == score_entries(a) + score_entries(b),
    decreases b.len(),
{
    if b.len() == 0 {
        assert(a + b =~= a);
        assert(score_entries(a) + score_entries(b) =~= score_entries(a));
    } else {
        lemma_score_entries_concat(a, b.drop_last());
        assert((a + b).drop_last() =~= a + b.drop_last());
        assert((a + b).last() == b.last());
        let x = score_entries(a);
        let y = score_entries(b.drop_last());
        let t = b.last();
        match parse_u64_spec(t.token@) {
            Some(v) => if 1 <= v <= 5 {
                assert((x + y).push((v as u64, t.logprob_bits)) =~= x + y.push((v as u64, t.logprob_bits)));
            } else {
            },
            None => {},
        }
    }
}

/// Every token that reads as a number `v` from one to five gives the entry
/// `(v, its log probability)`, and every entry comes from such a token: a
/// number from one to five read from a token, with that token's log probability.
pub proof fn lemma_score_entries_members(tokens: Seq<TokenLogProbs>)
    ensures
        forall|i: int|
            0 <= i < tokens.len() && (#[trigger] parse_u64_spec(tokens[i].token@)) is Some
                && 1 <= parse_u64_spec(tokens[i].token@)->0 <= 5 ==> score_entries(tokens).contains(
                (parse_u64_spec(tokens[i].token@)->0 as u64, tokens[i].logprob_bits),
            ),
        forall|k: int|
            0 <= k < score_entries(tokens).len() ==> 1 <= (#[trigger] score_entries(tokens)[k]).0 <= 5 && exists|i: int|
                0 <= i < tokens.len() && parse_u64_spec(tokens[i].token@) == Some(score_entries(tokens)[k].0 as int)
                    && tokens[i].logprob_bits == score_entries(tokens)[k].1,
    decreases tokens.len(),
{
    if tokens.len() > 0 {
        let rest = tokens.drop_last();
        lemma_score_entries_members(rest);
        let e = score_entries(tokens);
        let er = score_entries(rest);
        let t = tokens.last();
        let n = tokens.len() - 1;
        assert forall|i: int|
            0 <= i < tokens.len() && (#[trigger] parse_u64_spec(tokens[i].token@)) is Some
                && 1 <= parse_u64_spec(tokens[i].token@)->0 <= 5 implies e.contains(
                (parse_u64_spec(tokens[i].token@)->0 as u64, tokens[i].logprob_bits),
            ) by {
            let x = (parse_u64_spec(tokens[i].token@)->0 as u64, tokens[i].logprob_bits);
            if i < n {
                assert(rest[i] == tokens[i]);
                assert(er.contains(x));
                let j = choose|j: int| 0 <= j < er.len() && er[j] == x;
                if e != er {
                    assert(e[j] == x);
                }
            } else {
                assert(e == er.push(x));
                assert(e[er.len() as int] == x);
            }
        }
        assert forall|k: int| 0 <= k < e.len() implies 1 <= (#[trigger] e[k]).0 <= 5 && exists|i: int|
            0 <= i < tokens.len() && parse_u64_spec(tokens[i].token@) == Some(e[k].0 as int)
                && tokens[i].logprob_bits == e[k].1 by {
            if k < er.len() {
                assert(e[k] == er[k]);
                let i = choose|i: int|
                    0 <= i < rest.len() && parse_u64_spec(rest[i].token@) == Some(er[k].0 as int)
                        && rest[i].logprob_bits == er[k].1;
                assert(tokens[i] == rest[i]);
            } else {
                assert(tokens[n] == t);
            }
        }
    }
}

/// The tokens that read as scores from one to five, with their log
/// probabilities, from which a weighted score is computed.
pub fn score_probabilities(log_probs: &Vec<TokenLogProbs>) -> (r: Vec<(u64, u64)>)
    ensures
        r@ == score_entries(log_probs@),
{
    let mut out: Vec<(u64, u64)> = Vec::new();
    let mut i: usize = 0;
    while i < log_probs.len()
        invariant
            i <= log_probs@.len(),
            out@ == score_entries(log_probs@.take(i as int)),
        decreases log_probs@.len() - i,
    {
        proof {
            assert(log_probs@.take(i + 1).drop_last() =~= log_probs@.take(i as int));
            assert(log_probs@.take(i + 1).last() == log_probs@[i as int]);
        }
        match parse_u64(log_probs[i].token.as_str()) {
            Some(v) => {
                if 1 <= v && v <= 5 {
                    out.push((v, log_probs[i].logprob_bits));
                }
            },
            None => {},
        }
        i = i + 1;
    }
    proof {
        assert(log_probs@.take(i as int) =~= log_probs@);
    }
    out
}

} // verus!
