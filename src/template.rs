//! Filling `{name}` placeholders in email templates.
use vstd::prelude::*;

verus! {

/// `s` with every occurrence of `pat`, scanned left to right without
/// overlap, replaced by `val`.
pub open spec fn replace_all(s: Seq<char>, pat: Seq<char>, val: Seq<char>) -> Seq<char>
    decreases s.len(),
{
    if s.len() == 0 {
        s
    } else if 0 < pat.len() <= s.len() && s.take(pat.len() as int) == pat {
        val + replace_all(s.skip(pat.len() as int), pat, val)
    } else {
        seq![s[0]] + replace_all(s.skip(1), pat, val)
    }
}

/// The placeholder text for a key: the key in braces.
pub open spec fn placeholder(key: Seq<char>) -> Seq<char> {
    seq!['{'] + key + seq!['}']
}

/// `t` with the placeholders of `ps` filled in, one pair after another.
pub open spec fn fill(t: Seq<char>, ps: Seq<(String, String)>) -> Seq<char>
    decreases ps.len(),
{
    if ps.len() == 0 {
        t
    } else {
        fill(replace_all(t, placeholder(ps[0].0@), ps[0].1@), ps.drop_first())
    }
}

/// Whether `pat` occurs in `s` at character `i`.
fn occurs_at(s: &str, i: usize, pat: &str) -> (r: bool)
    requires
        i <= s@.len(),
    ensures
        r == (0 < pat@.len() <= s@.skip(i as int).len() && s@.skip(i as int).take(pat@.len() as int)
            == pat@),
{
    let n = s.unicode_len();
    let m = pat.unicode_len();
    if m == 0 || m > n - i {
        return false;
    }
    let mut k: usize = 0;
    while k < m
        invariant
            0 < m <= n - i,
            n == s@.len(),
            m == pat@.len(),
            k <= m,
            forall|j: int| 0 <= j < k ==> s@[i + j] == pat@[j],
        decreases m - k,
    {
        if s.get_char(i + k) != pat.get_char(k) {
            assert(s@.skip(i as int).take(m as int)[k as int] != pat@[k as int]);
            return false;
        }
        k += 1;
    }
    assert(s@.skip(i as int).take(m as int) =~= pat@);
    true
}

/// Replaces every occurrence of `pat` in `s` by `val`.
pub fn replace(s: &str, pat: &str, val: &str) -> (r: String)
    ensures
        r@ == replace_all(s@, pat@, val@),
{
    let n = s.unicode_len();
    let m = pat.unicode_len();
    let mut out = String::new();
    let mut i: usize = 0;
    assert(s@.skip(0) =~= s@);
    assert(out@ + replace_all(s@, pat@, val@) =~= replace_all(s@, pat@, val@));
    while i < n
        invariant
            n == s@.len(),
            m == pat@.len(),
            i <= n,
            out@ + replace_all(s@.skip(i as int), pat@, val@) == replace_all(s@, pat@, val@),
        decreases n - i,
    {
        let ghost rest = s@.skip(i as int);
        if occurs_at(s, i, pat) {
            out.append(val);
            proof {
                assert(rest.skip(m as int) =~= s@.skip(i + m));
                assert(out@ + replace_all(s@.skip(i + m), pat@, val@) =~= replace_all(s@, pat@, val@));
            }
            i = i + m;
        } else {
            let c = s.substring_char(i, i + 1);
            out.append(c);
            proof {
                assert(rest.skip(1) =~= s@.skip(i + 1));
                assert(c@ =~= seq![rest[0]]);
                assert(out@ + replace_all(s@.skip(i + 1), pat@, val@) =~= replace_all(s@, pat@, val@));
            }
            i = i + 1;
        }
    }
    proof {
        assert(s@.skip(n as int).len() == 0);
        assert(out@ =~= replace_all(s@, pat@, val@));
    }
    out
}

/// Fills the placeholders `{key}` of a template with their values, taking
/// the pairs in order.
pub fn fill_template(template: &String, placeholders: &Vec<(String, String)>) -> (r: String)
    ensures
        r@ == fill(template@, placeholders@),
{
    let mut text = template.clone();
    let mut i: usize = 0;
    assert(placeholders@.skip(0) =~= placeholders@);
    while i < placeholders.len()
        invariant
            i <= placeholders@.len(),
            fill(text@, placeholders@.skip(i as int)) == fill(template@, placeholders@),
        decreases placeholders@.len() - i,
    {
        let open = String::from_str("{");
        let key = open.concat(placeholders[i].0.as_str()).concat("}");
        proof {
            reveal_strlit("{");
            reveal_strlit("}");
            assert(key@ =~= placeholder(placeholders@[i as int].0@));
            assert(placeholders@.skip(i as int).drop_first() =~= placeholders@.skip(i + 1));
        }
        text = replace(text.as_str(), key.as_str(), placeholders[i].1.as_str());
        i += 1;
    }
    proof {
        assert(placeholders@.skip(i as int).len() == 0);
    }
    text
}

} // verus!
