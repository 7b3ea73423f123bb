use vstd::prelude::*;

use crate::text::{chars_of, string_from_chars};
use crate::workflow::tasklist::{contains_str, lemma_push_contains, sv};

verus! {

/// The placeholder that stands for a variable in a prompt: `${name}`.
pub open spec fn placeholder(name: Seq<char>) -> Seq<char> {
    seq!['$', '{'] + name + seq!['}']
}

/// `s` with every occurrence of `pat`, taken from the left and without
/// overlap, replaced by `val`.
pub open spec fn replace_all(s: Seq<char>, pat: Seq<char>, val: Seq<char>) -> Seq<char>
    decreases s.len(),
{
    if pat.len() == 0 || s.len() < pat.len() {
        s
    } else if s.take(pat.len() as int) == pat {
        val + replace_all(s.skip(pat.len() as int), pat, val)
    } else {
        seq![s[0]] + replace_all(s.skip(1), pat, val)
    }
}

/// `pat` occurs in `s` at position `i`.
pub open spec fn occurs_at(s: Seq<char>, pat: Seq<char>, i: int) -> bool {
    0 <= i && i + pat.len() <= s.len() && s.subrange(i, i + pat.len()) == pat
}

/// `pat` occurs somewhere in `s`.
pub open spec fn occurs_in(s: Seq<char>, pat: Seq<char>) -> bool {
    exists|i: int| #[trigger] occurs_at(s, pat, i)
}

/// A character that may start a variable name.
pub open spec fn is_ident_start(c: char) -> bool {
    ('a' <= c && c <= 'z') || ('A' <= c && c <= 'Z') || c == '_'
}

/// A character that may continue a variable name.
pub open spec fn is_ident_char(c: char) -> bool {
    is_ident_start(c) || ('0' <= c && c <= '9')
}

/// A variable name: a letter or underscore, then letters, digits or underscores.
pub open spec fn is_identifier(s: Seq<char>) -> bool {
    s.len() > 0 && is_ident_start(s[0]) && forall|i: int| 1 <= i < s.len() ==> is_ident_char(#[trigger] s[i])
}

/// Whether `s` holds `pat` at position `i`.
fn matches_at(s: &Vec<char>, pat: &Vec<char>, i: usize) -> (b: bool)
    requires
        i <= s@.len(),
    ensures
        b == (i + pat@.len() <= s@.len() && s@.subrange(i as int, i + pat@.len()) == pat@),
{
    let n = s.len();
    if pat.len() > n - i {
        return false;
    }
    let mut k: usize = 0;
    while k < pat.len()
        invariant
            n == s@.len(),
            k <= pat@.len(),
            i + pat@.len() <= s@.len(),
            forall|j: int| 0 <= j < k ==> s@[i + j] == pat@[j],
        decreases pat@.len() - k,
    {
        if s[i + k] != pat[k] {
            proof {
                assert(s@.subrange(i as int, i + pat@.len())[k as int] != pat@[k as int]);
            }
            return false;
        }
        k = k + 1;
    }
    proof {
        assert(s@.subrange(i as int, i + pat@.len()) =~= pat@);
    }
    true
}

proof fn lemma_replace_step_match(s: Seq<char>, i: int, pat: Seq<char>, val: Seq<char>)
    requires
        pat.len() > 0,
        0 <= i,
        i + pat.len() <= s.len(),
        s.subrange(i, i + pat.len()) == pat,
    ensures
        replace_all(s.skip(i), pat, val) == val + replace_all(s.skip(i + pat.len()), pat, val),
{
    let t = s.skip(i);
    assert(t.take(pat.len() as int) =~= s.subrange(i, i + pat.len()));
    assert(t.skip(pat.len() as int) =~= s.skip(i + pat.len()));
}

proof fn lemma_replace_step_nomatch(s: Seq<char>, i: int, pat: Seq<char>, val: Seq<char>)
    requires
        pat.len() > 0,
        0 <= i < s.len(),
        !(i + pat.len() <= s.len() && s.subrange(i, i + pat.len()) == pat),
    ensures
        replace_all(s.skip(i), pat, val) == seq![s[i]] + replace_all(s.skip(i + 1), pat, val),
{
    let t = s.skip(i);
    assert(t.skip(1) =~= s.skip(i + 1));
    if t.len() >= pat.len() {
        assert(t.take(pat.len() as int) =~= s.subrange(i, i + pat.len()));
    } else {
        // too short for a match: the rest is left as it is
        lemma_replace_short(t, pat, val);
        lemma_replace_short(t.skip(1), pat, val);
        assert(t =~= seq![s[i]] + t.skip(1));
    }
}

proof fn lemma_replace_short(s: Seq<char>, pat: Seq<char>, val: Seq<char>)
    requires
        s.len() < pat.len(),
    ensures
        replace_all(s, pat, val) == s,
{
}

/// `s` with every `${name}` replaced by `value`.
pub fn replace_placeholder(s: &str, name: &str, value: &str) -> (r: String)
    ensures
        r@ == replace_all(s@, placeholder(name@), value@),
{
    let src = chars_of(s);
    let mut pat: Vec<char> = Vec::new();
    pat.push('$');
    pat.push('{');
    let name_chars = chars_of(name);
    let mut k: usize = 0;
    while k < name_chars.len()
        invariant
            k <= name_chars@.len(),
            pat@ == seq!['$', '{'] + name_chars@.take(k as int),
        decreases name_chars@.len() - k,
    {
        pat.push(name_chars[k]);
        proof {
            assert(name_chars@.take(k + 1) =~= name_chars@.take(k as int).push(name_chars@[k as int]));
            assert(pat@ =~= seq!['$', '{'] + name_chars@.take(k + 1));
        }
        k = k + 1;
    }
    pat.push('}');
    proof {
        assert(name_chars@.take(k as int) =~= name@);
        assert(pat@ =~= placeholder(name@));
    }
    let val = chars_of(value);
    let mut out: Vec<char> = Vec::new();
    let mut i: usize = 0;
    let ghost sv = src@;
    let ghost pv = pat@;
    let ghost vv = val@;
    proof {
        assert(sv.skip(0) =~= sv);
    }
    while i < src.len()
        invariant
            i <= sv.len(),
            sv == src@,
            pv == pat@,
            vv == val@,
            pv.len() > 0,
            out@ + replace_all(sv.skip(i as int), pv, vv) == replace_all(sv, pv, vv),
        decreases sv.len() - i,
    {
        if matches_at(&src, &pat, i) {
            proof {
                lemma_replace_step_match(sv, i as int, pv, vv);
            }
            let ghost before = out@;
            let mut m: usize = 0;
            while m < val.len()
                invariant
                    m <= vv.len(),
                    vv == val@,
                    out@ == before + vv.take(m as int),
                decreases vv.len() - m,
            {
                out.push(val[m]);
                proof {
                    assert(vv.take(m + 1) =~= vv.take(m as int).push(vv[m as int]));
                }
                m = m + 1;
            }
            proof {
                assert(vv.take(m as int) =~= vv);
                assert(out@ + replace_all(sv.skip(i + pv.len()), pv, vv) =~= before + (vv
                    + replace_all(sv.skip(i + pv.len()), pv, vv)));
            }
            i = i + pat.len();
        } else {
            proof {
                lemma_replace_step_nomatch(sv, i as int, pv, vv);
            }
            let ghost before = out@;
            out.push(src[i]);
            proof {
                assert(out@ + replace_all(sv.skip(i + 1), pv, vv) =~= before + (seq![sv[i as int]]
                    + replace_all(sv.skip(i + 1), pv, vv)));
            }
            i = i + 1;
        }
    }
    proof {
        assert(sv.skip(i as int) =~= Seq::<char>::empty());
        assert(out@ =~= replace_all(sv, pv, vv));
    }
    string_from_chars(&out)
}

/// Replacing a pattern that does not occur leaves the text as it is.
pub proof fn lemma_replace_absent(s: Seq<char>, pat: Seq<char>, val: Seq<char>)
    requires
        !occurs_in(s, pat),
    ensures
        replace_all(s, pat, val) == s,
    decreases s.len(),
{
    if pat.len() == 0 || s.len() < pat.len() {
    } else {
        assert(s.take(pat.len() as int) =~= s.subrange(0, pat.len() as int));
        assert(!occurs_at(s, pat, 0));
        let t = s.skip(1);
        assert(!occurs_in(t, pat)) by {
            if occurs_in(t, pat) {
                let i = choose|i: int| #[trigger] occurs_at(t, pat, i);
                assert(s.subrange(i + 1, i + 1 + pat.len()) =~= t.subrange(i, i + pat.len()));
                assert(occurs_at(s, pat, i + 1));
            }
        }
        lemma_replace_absent(t, pat, val);
        assert(s =~= seq![s[0]] + t);
    }
}

/// The length of the run of name characters at the start of `s`.
pub open spec fn ident_run(s: Seq<char>) -> int
    decreases s.len(),
{
    if s.len() > 0 && is_ident_char(s[0]) {
        1 + ident_run(s.skip(1))
    } else {
        0
    }
}

/// The length of the name of the placeholder `${name}` at the start of `s`, or
/// 0 when `s` does not start with one.
pub open spec fn placeholder_len(s: Seq<char>) -> int {
    if s.len() > 2 && s[0] == '$' && s[1] == '{' && is_ident_start(s[2]) && 2 + ident_run(s.skip(2)) < s.len()
        && s[2 + ident_run(s.skip(2))] == '}' {
        ident_run(s.skip(2))
    } else {
        0
    }
}

/// The names of the variables `${name}` in a text, as the pattern
/// `\$\{([a-zA-Z_][a-zA-Z0-9_]*)\}` captures them: matches are taken from the
/// left without overlap, and group 1 of each is its name.
pub open spec fn regex_var_captures(text: Seq<char>) -> Seq<Seq<char>>
    decreases text.len(),
{
    if text.len() == 0 {
        Seq::empty()
    } else if placeholder_len(text) > 0 {
        let n = placeholder_len(text);
        seq![text.subrange(2, 2 + n)] + regex_var_captures(text.skip(n + 3))
    } else {
        regex_var_captures(text.skip(1))
    }
}

/// The run of name characters at the start of `s` is all name characters.
proof fn lemma_ident_run(s: Seq<char>)
    ensures
        0 <= ident_run(s) <= s.len(),
        forall|i: int| 0 <= i < ident_run(s) ==> is_ident_char(#[trigger] s[i]),
    decreases s.len(),
{
    if s.len() > 0 && is_ident_char(s[0]) {
        lemma_ident_run(s.skip(1));
        assert forall|i: int| 0 <= i < ident_run(s) implies is_ident_char(#[trigger] s[i]) by {
            if i > 0 {
                assert(s[i] == s.skip(1)[i - 1]);
            }
        }
    }
}

/// Each captured name is a name, and its placeholder occurs in the text.
pub proof fn lemma_captures_are_placeholders(text: Seq<char>)
    ensures
        forall|i: int|
            0 <= i < regex_var_captures(text).len() ==> is_identifier(#[trigger] regex_var_captures(text)[i])
                && occurs_in(text, placeholder(regex_var_captures(text)[i])),
    decreases text.len(),
{
    if text.len() > 0 {
        let n = placeholder_len(text);
        let caps = regex_var_captures(text);
        if n > 0 {
            let rest = text.skip(n + 3);
            lemma_captures_are_placeholders(rest);
            lemma_ident_run(text.skip(2));
            let name = text.subrange(2, 2 + n);
            assert forall|i: int| 0 <= i < caps.len() implies is_identifier(#[trigger] caps[i]) && occurs_in(
                text,
                placeholder(caps[i]),
            ) by {
                if i == 0 {
                    assert(caps[0] == name);
                    assert forall|k: int| 1 <= k < name.len() implies is_ident_char(#[trigger] name[k]) by {
                        assert(name[k] == text.skip(2)[k]);
                    }
                    assert(name[0] == text[2]);
                    assert(text.subrange(0, placeholder(name).len() as int) =~= placeholder(name));
                    assert(occurs_at(text, placeholder(name), 0));
                } else {
                    assert(caps[i] == regex_var_captures(rest)[i - 1]);
                    let c = caps[i];
                    let j = choose|j: int| #[trigger] occurs_at(rest, placeholder(c), j);
                    assert(text.subrange(j + n + 3, j + n + 3 + placeholder(c).len()) =~= rest.subrange(
                        j,
                        j + placeholder(c).len(),
                    ));
                    assert(occurs_at(text, placeholder(c), j + n + 3));
                }
            }
        } else {
            let rest = text.skip(1);
            lemma_captures_are_placeholders(rest);
            assert forall|i: int| 0 <= i < caps.len() implies is_identifier(#[trigger] caps[i]) && occurs_in(
                text,
                placeholder(caps[i]),
            ) by {
                let c = caps[i];
                assert(c == regex_var_captures(rest)[i]);
                let j = choose|j: int| #[trigger] occurs_at(rest, placeholder(c), j);
                assert(text.subrange(j + 1, j + 1 + placeholder(c).len()) =~= rest.subrange(j, j + placeholder(c).len()));
                assert(occurs_at(text, placeholder(c), j + 1));
            }
        }
    }
}

/// The variable names that the `regex` crate captures in `text` with the
/// pattern `\$\{([a-zA-Z_][a-zA-Z0-9_]*)\}` (`Regex::new`, then
/// `Regex::captures_iter`, group 1 of each match).
///
/// Trusted: the contract claims that the crate finds the leftmost matches
/// without overlap and that group 1 of each is the name between `${` and `}`,
/// `regex_var_captures`.
#[verifier::external_body]
fn variable_captures(text: &str) -> (r: Vec<String>)
    ensures
        sv(r@) == regex_var_captures(text@),
{
    let re = regex::Regex::new(r"\$\{([a-zA-Z_][a-zA-Z0-9_]*)\}").unwrap();
    re.captures_iter(text).map(|c| c[1].to_string()).collect()
}

/// The set of variable names that the texts hold.
pub open spec fn vars_of_texts(texts: Seq<Seq<char>>) -> Set<Seq<char>> {
    Set::new(
        |x: Seq<char>|
            exists|i: int| 0 <= i < texts.len() && #[trigger] regex_var_captures(texts[i]).contains(x),
    )
}

/// Adds the strings of `new` that `acc` does not hold yet, in order.
pub fn extend_unique(acc: &mut Vec<String>, new: &Vec<String>)
    requires
        sv(old(acc)@).no_duplicates(),
    ensures
        sv(final(acc)@).no_duplicates(),
        forall|x: Seq<char>|
            #[trigger] sv(final(acc)@).contains(x) <==> (sv(old(acc)@).contains(x) || sv(new@).contains(x)),
{
    let mut k: usize = 0;
    while k < new.len()
        invariant
            k <= new@.len(),
            sv(acc@).no_duplicates(),
            forall|x: Seq<char>|
                #[trigger] sv(acc@).contains(x) <==> (sv(old(acc)@).contains(x) || sv(new@).take(k as int).contains(x)),
        decreases new@.len() - k,
    {
        let ghost a0 = sv(acc@);
        let ghost nv = sv(new@);
        let x = &new[k];
        assert(nv[k as int] == x@);
        assert(nv.take(k + 1) =~= nv.take(k as int).push(x@));
        proof {
            lemma_push_contains(nv.take(k as int), x@);
        }
        let present = contains_str(acc, x);
        if !present {
            acc.push(x.clone());
            proof {
                assert(sv(acc@) =~= a0.push(x@));
                lemma_push_contains(a0, x@);
                assert(sv(acc@).no_duplicates()) by {
                    let a1 = sv(acc@);
                    assert forall|p: int, q: int| 0 <= p < a1.len() && 0 <= q < a1.len() && p != q implies a1[p]
                        != a1[q] by {
                        if p < a0.len() && q < a0.len() {
                            assert(a1[p] == a0[p] && a1[q] == a0[q]);
                        } else if p < a0.len() {
                            assert(a1[p] == a0[p]);
                            assert(a0.contains(a1[p]));
                        } else if q < a0.len() {
                            assert(a1[q] == a0[q]);
                            assert(a0.contains(a1[q]));
                        }
                    }
                }
            }
        }
        proof {
            assert forall|y: Seq<char>|
                #[trigger] sv(acc@).contains(y) <==> (sv(old(acc)@).contains(y) || nv.take(k + 1).contains(y)) by {
                assert(nv.take(k + 1).contains(y) == (nv.take(k as int).contains(y) || y == x@));
                assert(a0.contains(y) == (sv(old(acc)@).contains(y) || nv.take(k as int).contains(y)));
                if present {
                    assert(sv(acc@) == a0);
                } else {
                    assert(sv(acc@) == a0.push(x@));
                    assert(sv(acc@).contains(y) == (a0.contains(y) || y == x@));
                }
            }
        }
        k = k + 1;
    }
    proof {
        assert(sv(new@).take(k as int) =~= sv(new@));
    }
}

/// The distinct variable names of a sequence of texts, in order of first
/// appearance.
pub fn variables_of_texts(texts: &Vec<String>) -> (r: Vec<String>)
    ensures
        sv(r@).no_duplicates(),
        forall|x: Seq<char>|
            #[trigger] sv(r@).contains(x) <==> vars_of_texts(
                sv(texts@),
            ).contains(x),
{
    let mut acc: Vec<String> = Vec::new();
    let ghost tv = sv(texts@);
    proof {
        assert(sv(acc@) =~= Seq::<Seq<char>>::empty());
    }
    let mut i: usize = 0;
    while i < texts.len()
        invariant
            i <= texts@.len(),
            tv == sv(texts@),
            sv(acc@).no_duplicates(),
            forall|x: Seq<char>|
                #[trigger] sv(acc@).contains(x) <==> vars_of_texts(
                    tv.take(i as int),
                ).contains(x),
        decreases texts@.len() - i,
    {
        let caps = variable_captures(texts[i].as_str());
        extend_unique(&mut acc, &caps);
        proof {
            assert forall|x: Seq<char>|
                #[trigger] sv(acc@).contains(x) <==> vars_of_texts(
                    tv.take(i + 1),
                ).contains(x) by {
                let t0 = tv.take(i as int);
                let t1 = tv.take(i + 1);
                assert(tv[i as int] == texts@[i as int]@);
                if vars_of_texts(t1).contains(x) {
                    let j = choose|j: int| 0 <= j < t1.len() && #[trigger] regex_var_captures(t1[j]).contains(x);
                    if j < i {
                        assert(t0[j] == t1[j]);
                        assert(vars_of_texts(t0).contains(x));
                    }
                }
                if vars_of_texts(t0).contains(x) {
                    let j = choose|j: int| 0 <= j < t0.len() && #[trigger] regex_var_captures(t0[j]).contains(x);
                    assert(t0[j] == t1[j]);
                    assert(vars_of_texts(t1).contains(x));
                }
                if regex_var_captures(texts@[i as int]@).contains(x) {
                    assert(t1[i as int] == texts@[i as int]@);
                    assert(vars_of_texts(t1).contains(x));
                }
            }
        }
        i = i + 1;
    }
    proof {
        assert(tv.take(i as int) =~= tv);
    }
    acc
}

} // verus!
