//! Formatting Normalizer: a fixed, ordered list of literal text substitutions
//! that corrects cosmetic spacing artifacts the serializer leaves around newly
//! inserted inline tables and arrays. Applying the whole pass twice is proved
//! to be a no-op, and the version-string cleanup used by the shape migration
//! lives here too.

use vstd::prelude::*;

verus! {

/// Leftmost, non-overlapping replacement of every occurrence of `pat` by
/// `to`, as the standard library's string replacement performs it.
pub open spec fn replace_all_spec(s: Seq<char>, pat: Seq<char>, to: Seq<char>) -> Seq<char>
    decreases s.len(),
{
    if pat.len() == 0 || s.len() == 0 {
        s
    } else if s.len() >= pat.len() && s.take(pat.len() as int) == pat {
        to + replace_all_spec(s.skip(pat.len() as int), pat, to)
    } else {
        seq![s[0]] + replace_all_spec(s.skip(1), pat, to)
    }
}

/// No two adjacent characters of `s` are `c` then `d`.
pub open spec fn no_pair(s: Seq<char>, c: char, d: char) -> bool {
    forall|i: int| 0 <= i < s.len() - 1 ==> !(#[trigger] s[i] == c && s[i + 1] == d)
}

/// `pat` occurs nowhere in `s`.
pub open spec fn no_occurrence(s: Seq<char>, pat: Seq<char>) -> bool {
    forall|i: int| 0 <= i <= s.len() - pat.len() ==> #[trigger] s.subrange(i, i + pat.len() as int)
        != pat
}

fn matches_at(s: &Vec<char>, pat: &Vec<char>, i: usize) -> (b: bool)
    requires
        i <= s@.len(),
    ensures
        b == (i + pat@.len() <= s@.len() && s@.subrange(i as int, i as int + pat@.len() as int)
            == pat@),
{
    let n: usize = s.len();
    if n - i < pat.len() {
        return false;
    }
    let mut j: usize = 0;
    while j < pat.len()
        invariant
            j <= pat@.len(),
            n == s@.len(),
            i + pat@.len() <= n,
            forall|t: int| 0 <= t < j ==> s@[i + t] == pat@[t],
        decreases pat@.len() - j,
    {
        proof {
            assert(i + j < s@.len());
        }
        if s[i + j] != pat[j] {
            proof {
                assert(s@.subrange(i as int, i as int + pat@.len() as int)[j as int] == s@[i + j]);
            }
            return false;
        }
        j = j + 1;
    }
    proof {
        assert(s@.subrange(i as int, i as int + pat@.len() as int) =~= pat@);
    }
    true
}

fn push_all(out: &mut Vec<char>, src: &Vec<char>)
    ensures
        final(out)@ == old(out)@ + src@,
{
    proof {
        assert(out@ =~= old(out)@ + src@.take(0));
    }
    let mut j: usize = 0;
    while j < src.len()
        invariant
            j <= src@.len(),
            out@ == old(out)@ + src@.take(j as int),
        decreases src@.len() - j,
    {
        out.push(src[j]);
        proof {
            assert(old(out)@ + src@.take(j as int + 1) =~= (old(out)@ + src@.take(j as int)).push(
                src@[j as int],
            ));
        }
        j = j + 1;
    }
    proof {
        assert(src@.take(src@.len() as int) =~= src@);
    }
}

/// Replaces every occurrence of `pat` in `s` by `to`, leftmost first.
pub fn replace_all(s: &Vec<char>, pat: &Vec<char>, to: &Vec<char>) -> (r: Vec<char>)
    requires
        pat@.len() > 0,
    ensures
        r@ == replace_all_spec(s@, pat@, to@),
{
    let mut out: Vec<char> = Vec::new();
    let mut i: usize = 0;
    proof {
        assert(s@.skip(0) =~= s@);
        assert(out@ + replace_all_spec(s@, pat@, to@) =~= replace_all_spec(s@, pat@, to@));
    }
    while i < s.len()
        invariant
            i <= s@.len(),
            pat@.len() > 0,
            out@ + replace_all_spec(s@.skip(i as int), pat@, to@) == replace_all_spec(
                s@,
                pat@,
                to@,
            ),
        decreases s@.len() - i,
    {
        let ghost rem = s@.skip(i as int);
        let ghost pre = out@;
        if matches_at(s, pat, i) {
            push_all(&mut out, to);
            proof {
                assert(rem.take(pat@.len() as int) =~= s@.subrange(
                    i as int,
                    i as int + pat@.len() as int,
                ));
                assert(rem.len() >= pat@.len() && rem.len() > 0);
                assert(replace_all_spec(rem, pat@, to@) == to@ + replace_all_spec(
                    rem.skip(pat@.len() as int),
                    pat@,
                    to@,
                ));
                assert(rem.skip(pat@.len() as int) =~= s@.skip(i as int + pat@.len() as int));
                assert(out@ + replace_all_spec(s@.skip(i as int + pat@.len() as int), pat@, to@)
                    =~= pre + replace_all_spec(rem, pat@, to@));
            }
            i = i + pat.len();
        } else {
            out.push(s[i]);
            proof {
                assert(rem.len() > 0);
                assert(rem[0] == s@[i as int]);
                if rem.len() >= pat@.len() {
                    assert(rem.take(pat@.len() as int) =~= s@.subrange(
                        i as int,
                        i as int + pat@.len() as int,
                    ));
                }
                assert(replace_all_spec(rem, pat@, to@) == seq![rem[0]] + replace_all_spec(
                    rem.skip(1),
                    pat@,
                    to@,
                ));
                assert(rem.skip(1) =~= s@.skip(i as int + 1));
                assert(out@ =~= pre.push(s@[i as int]));
                assert(out@ + replace_all_spec(s@.skip(i as int + 1), pat@, to@) =~= pre
                    + replace_all_spec(rem, pat@, to@));
            }
            i = i + 1;
        }
    }
    proof {
        assert(s@.skip(i as int) =~= Seq::<char>::empty());
        assert(out@ + replace_all_spec(s@.skip(i as int), pat@, to@) =~= out@);
    }
    out
}

/// A text without any occurrence of the pattern is left unchanged.
pub proof fn lemma_replace_id(s: Seq<char>, pat: Seq<char>, to: Seq<char>)
    requires
        pat.len() > 0,
        no_occurrence(s, pat),
    ensures
        replace_all_spec(s, pat, to) == s,
    decreases s.len(),
{
    if s.len() == 0 {
    } else {
        if s.len() >= pat.len() {
            assert(s.take(pat.len() as int) =~= s.subrange(0, 0 + pat.len() as int));
            assert(s.subrange(0, 0 + pat.len() as int) != pat);
        }
        assert(no_occurrence(s.skip(1), pat)) by {
            assert forall|i: int| 0 <= i <= s.skip(1).len() - pat.len() implies #[trigger] s.skip(
                1,
            ).subrange(i, i + pat.len() as int) != pat by {
                assert(s.skip(1).subrange(i, i + pat.len() as int) =~= s.subrange(
                    i + 1,
                    i + 1 + pat.len(),
                ));
            }
        }
        lemma_replace_id(s.skip(1), pat, to);
        assert(seq![s[0]] + s.skip(1) =~= s);
    }
}

/// Replacement never changes the first character when the replacement text
/// starts with the same character as the pattern.
proof fn lemma_replace_first(s: Seq<char>, pat: Seq<char>, to: Seq<char>)
    requires
        pat.len() > 0,
        to.len() > 0,
        to[0] == pat[0],
        s.len() > 0,
    ensures
        replace_all_spec(s, pat, to).len() > 0,
        replace_all_spec(s, pat, to)[0] == s[0],
{
    if s.len() >= pat.len() && s.take(pat.len() as int) == pat {
        assert(s.take(pat.len() as int)[0] == s[0]);
        assert((to + replace_all_spec(s.skip(pat.len() as int), pat, to))[0] == to[0]);
    } else {
        assert((seq![s[0]] + replace_all_spec(s.skip(1), pat, to))[0] == s[0]);
    }
}

/// Substituting the two-character pattern `[a, b]` by `[a, m, b]` leaves no
/// `c`-then-`d` pair behind, neither the pattern's own pair nor, when the text
/// had none, any other protected pair.
proof fn lemma_replace2_no_pair(s: Seq<char>, a: char, b: char, m: char, c: char, d: char)
    requires
        b != c,
        a != d,
        !(a == c && m == d),
        !(m == c && b == d),
        (a == c && b == d) || no_pair(s, c, d),
    ensures
        no_pair(replace_all_spec(s, seq![a, b], seq![a, m, b]), c, d),
    decreases s.len(),
{
    let pat = seq![a, b];
    let to = seq![a, m, b];
    if s.len() == 0 {
    } else if s.len() >= 2 && s.take(2) == pat {
        assert(s[0] == a && s[1] == b) by {
            assert(s.take(2)[0] == s[0] && s.take(2)[1] == s[1]);
        }
        let rest = s.skip(2);
        if !(a == c && b == d) {
            assert(no_pair(rest, c, d)) by {
                assert forall|i: int| 0 <= i < rest.len() - 1 implies !(#[trigger] rest[i] == c
                    && rest[i + 1] == d) by {
                    assert(rest[i] == s[i + 2] && rest[i + 1] == s[i + 3]);
                }
            }
        }
        lemma_replace2_no_pair(rest, a, b, m, c, d);
        let rr = replace_all_spec(rest, pat, to);
        let result = to + rr;
        assert(replace_all_spec(s, pat, to) == result);
        assert(no_pair(result, c, d)) by {
            assert forall|i: int| 0 <= i < result.len() - 1 implies !(#[trigger] result[i] == c
                && result[i + 1] == d) by {
                if i == 0 {
                    assert(result[0] == a && result[1] == m);
                } else if i == 1 {
                    assert(result[1] == m && result[2] == b);
                } else if i == 2 {
                    assert(result[2] == b);
                } else {
                    assert(result[i] == rr[i - 3] && result[i + 1] == rr[i - 2]);
                }
            }
        }
    } else {
        if s.len() >= 2 {
            assert(!(s[0] == a && s[1] == b)) by {
                if s[0] == a && s[1] == b {
                    assert(s.take(2) =~= pat);
                }
            }
        }
        let rest = s.skip(1);
        if !(a == c && b == d) {
            assert(no_pair(rest, c, d)) by {
                assert forall|i: int| 0 <= i < rest.len() - 1 implies !(#[trigger] rest[i] == c
                    && rest[i + 1] == d) by {
                    assert(rest[i] == s[i + 1] && rest[i + 1] == s[i + 2]);
                }
            }
        }
        lemma_replace2_no_pair(rest, a, b, m, c, d);
        let rr = replace_all_spec(rest, pat, to);
        let result = seq![s[0]] + rr;
        assert(replace_all_spec(s, pat, to) == result);
        assert(no_pair(result, c, d)) by {
            assert forall|i: int| 0 <= i < result.len() - 1 implies !(#[trigger] result[i] == c
                && result[i + 1] == d) by {
                if i == 0 {
                    assert(rr.len() > 0);
                    assert(rest.len() > 0);
                    lemma_replace_first(rest, pat, to);
                    assert(result[0] == s[0] && result[1] == rr[0] && rr[0] == s[1]);
                } else {
                    assert(result[i] == rr[i - 1] && result[i + 1] == rr[i]);
                }
            }
        }
    }
}

/// A pair that sits inside the pattern carries pair-freedom over to
/// occurrence-freedom for the whole pattern.
proof fn lemma_no_pair_no_occurrence(s: Seq<char>, pat: Seq<char>, j: int, c: char, d: char)
    requires
        0 <= j,
        j + 1 < pat.len(),
        pat[j] == c,
        pat[j + 1] == d,
        no_pair(s, c, d),
    ensures
        no_occurrence(s, pat),
{
    assert forall|i: int| 0 <= i <= s.len() - pat.len() implies #[trigger] s.subrange(
        i,
        i + pat.len() as int,
    ) != pat by {
        if s.subrange(i, i + pat.len() as int) == pat {
            assert(s.subrange(i, i + pat.len() as int)[j] == s[i + j]);
            assert(s.subrange(i, i + pat.len() as int)[j + 1] == s[i + j + 1]);
            assert(s[i + j] == c && s[i + j + 1] == d);
        }
    }
}

/// First substitution: a space that strayed before the comma separating the
/// version from a following "features" key.
pub open spec fn sub_feat_from() -> Seq<char> {
    "\" ,features =["@
}

pub open spec fn sub_feat_to() -> Seq<char> {
    "\", features = ["@
}

/// Second substitution: a missing space between an array's closing bracket
/// and the inline table's closing brace.
pub open spec fn sub_close_from() -> Seq<char> {
    "]}"@
}

pub open spec fn sub_close_to() -> Seq<char> {
    "] }"@
}

/// Third substitution: a missing space between `=` and an inline table.
pub open spec fn sub_brace_from() -> Seq<char> {
    "={"@
}

pub open spec fn sub_brace_to() -> Seq<char> {
    "= {"@
}

/// Fourth substitution: a missing space between `=` and an array.
pub open spec fn sub_bracket_from() -> Seq<char> {
    "=["@
}

pub open spec fn sub_bracket_to() -> Seq<char> {
    "= ["@
}

/// The whole normalizer pass: the four substitutions, in their fixed order.
pub open spec fn pass_spec(s: Seq<char>) -> Seq<char> {
    let t1 = replace_all_spec(s, sub_feat_from(), sub_feat_to());
    let t2 = replace_all_spec(t1, sub_close_from(), sub_close_to());
    let t3 = replace_all_spec(t2, sub_brace_from(), sub_brace_to());
    replace_all_spec(t3, sub_bracket_from(), sub_bracket_to())
}

/// Law: the normalizer pass is idempotent. Running the substitution list a
/// second time over its own output changes nothing.
pub proof fn lemma_pass_idempotent(s: Seq<char>)
    ensures
        pass_spec(pass_spec(s)) == pass_spec(s),
{
    reveal_strlit("\" ,features =[");
    reveal_strlit("\", features = [");
    reveal_strlit("]}");
    reveal_strlit("] }");
    reveal_strlit("={");
    reveal_strlit("= {");
    reveal_strlit("=[");
    reveal_strlit("= [");
    assert(sub_close_from() =~= seq![']', '}']);
    assert(sub_close_to() =~= seq![']', ' ', '}']);
    assert(sub_brace_from() =~= seq!['=', '{']);
    assert(sub_brace_to() =~= seq!['=', ' ', '{']);
    assert(sub_bracket_from() =~= seq!['=', '[']);
    assert(sub_bracket_to() =~= seq!['=', ' ', '[']);
    let t1 = replace_all_spec(s, sub_feat_from(), sub_feat_to());
    let t2 = replace_all_spec(t1, sub_close_from(), sub_close_to());
    let t3 = replace_all_spec(t2, sub_brace_from(), sub_brace_to());
    let t4 = replace_all_spec(t3, sub_bracket_from(), sub_bracket_to());
    assert(pass_spec(s) == t4);
    lemma_replace2_no_pair(t1, ']', '}', ' ', ']', '}');
    assert(no_pair(t2, ']', '}'));
    lemma_replace2_no_pair(t2, '=', '{', ' ', ']', '}');
    assert(no_pair(t3, ']', '}'));
    lemma_replace2_no_pair(t2, '=', '{', ' ', '=', '{');
    assert(no_pair(t3, '=', '{'));
    lemma_replace2_no_pair(t3, '=', '[', ' ', ']', '}');
    lemma_replace2_no_pair(t3, '=', '[', ' ', '=', '{');
    lemma_replace2_no_pair(t3, '=', '[', ' ', '=', '[');
    assert(no_pair(t4, ']', '}') && no_pair(t4, '=', '{') && no_pair(t4, '=', '['));
    assert(sub_feat_from().len() == 14 && sub_feat_from()[12] == '=' && sub_feat_from()[13]
        == '[');
    lemma_no_pair_no_occurrence(t4, sub_feat_from(), 12, '=', '[');
    lemma_no_pair_no_occurrence(t4, sub_close_from(), 0, ']', '}');
    lemma_no_pair_no_occurrence(t4, sub_brace_from(), 0, '=', '{');
    lemma_no_pair_no_occurrence(t4, sub_bracket_from(), 0, '=', '[');
    lemma_replace_id(t4, sub_feat_from(), sub_feat_to());
    lemma_replace_id(t4, sub_close_from(), sub_close_to());
    lemma_replace_id(t4, sub_brace_from(), sub_brace_to());
    lemma_replace_id(t4, sub_bracket_from(), sub_bracket_to());
    assert(pass_spec(t4) == t4);
}

/// Relies on `str::chars` with `Iterator::collect`: the characters of the
/// string, in order.
#[verifier::external_body]
fn str_to_chars(s: &str) -> (r: Vec<char>)
    ensures
        r@ == s@,
{
    s.chars().collect()
}

/// Relies on `FromIterator<char> for String`: the string holding exactly
/// these characters, in order.
#[verifier::external_body]
fn chars_to_string(v: &Vec<char>) -> (r: String)
    ensures
        r@ == v@,
{
    v.iter().collect()
}

/// Applies the normalizer's fixed substitution list to rendered manifest
/// text.
pub fn normalize_rendered(text: &str) -> (r: String)
    ensures
        r@ == pass_spec(text@),
{
    let s = str_to_chars(text);
    let f1 = str_to_chars("\" ,features =[");
    let g1 = str_to_chars("\", features = [");
    let f2 = str_to_chars("]}");
    let g2 = str_to_chars("] }");
    let f3 = str_to_chars("={");
    let g3 = str_to_chars("= {");
    let f4 = str_to_chars("=[");
    let g4 = str_to_chars("= [");
    proof {
        reveal_strlit("\" ,features =[");
        reveal_strlit("]}");
        reveal_strlit("={");
        reveal_strlit("=[");
    }
    let t1 = replace_all(&s, &f1, &g1);
    let t2 = replace_all(&t1, &f2, &g2);
    let t3 = replace_all(&t2, &f3, &g3);
    let t4 = replace_all(&t3, &f4, &g4);
    chars_to_string(&t4)
}

/// What remains of a scalar's rendering once every double-quote and space is
/// removed: the bare version constraint.
pub open spec fn stripped_spec(s: Seq<char>) -> Seq<char>
    decreases s.len(),
{
    if s.len() == 0 {
        s
    } else if s[0] == '"' || s[0] == ' ' {
        stripped_spec(s.skip(1))
    } else {
        seq![s[0]] + stripped_spec(s.skip(1))
    }
}

/// Removes every double-quote and space character from a bare version
/// scalar's rendering, for the shape migration.
pub fn strip_quotes_and_spaces(s: &str) -> (r: String)
    ensures
        r@ == stripped_spec(s@),
{
    let chars = str_to_chars(s);
    let mut out: Vec<char> = Vec::new();
    let mut i: usize = 0;
    proof {
        assert(s@.skip(0) =~= s@);
        assert(out@ + stripped_spec(s@) =~= stripped_spec(s@));
    }
    while i < chars.len()
        invariant
            i <= chars@.len(),
            chars@ == s@,
            out@ + stripped_spec(s@.skip(i as int)) == stripped_spec(s@),
        decreases chars@.len() - i,
    {
        let ghost rem = s@.skip(i as int);
        let ghost pre = out@;
        let ch = chars[i];
        proof {
            assert(rem.len() > 0);
            assert(rem[0] == s@[i as int]);
            assert(rem.skip(1) =~= s@.skip(i as int + 1));
        }
        if ch != '"' && ch != ' ' {
            out.push(ch);
            proof {
                assert(stripped_spec(rem) == seq![rem[0]] + stripped_spec(rem.skip(1)));
                assert(out@ + stripped_spec(s@.skip(i as int + 1)) =~= pre + stripped_spec(rem));
            }
        } else {
            proof {
                assert(stripped_spec(rem) == stripped_spec(rem.skip(1)));
            }
        }
        i = i + 1;
    }
    proof {
        assert(s@.skip(i as int) =~= Seq::<char>::empty());
        assert(out@ + stripped_spec(s@.skip(i as int)) =~= out@);
    }
    chars_to_string(&out)
}

} // verus!
