//! Path template substitution: every occurrence of the literal token
//! `${member}` in a template is replaced by the computed member name. A
//! template without the token passes through unchanged; that is deliberate,
//! some deployments use a constant companion path.

use vstd::prelude::*;
use vstd::string::StrSliceExecFns;
use vstd::string::StringExecFns;

verus! {

/// The literal placeholder token, `${member}`.
pub open spec fn placeholder() -> Seq<char> {
    seq!['$', '{', 'm', 'e', 'm', 'b', 'e', 'r', '}']
}

/// Whether the placeholder token stands in `t` at position `i`.
pub open spec fn placeholder_at(t: Seq<char>, i: int) -> bool {
    0 <= i && i + 9 <= t.len() && t.subrange(i, i + 9) == placeholder()
}

/// The template with every occurrence of the placeholder token replaced by
/// `m`, scanning left to right and never rescanning replaced text.
pub open spec fn substituted(t: Seq<char>, m: Seq<char>) -> Seq<char>
    decreases t.len(),
{
    if t.len() == 0 {
        Seq::empty()
    } else if placeholder_at(t, 0) {
        m + substituted(t.skip(9), m)
    } else {
        seq![t[0]] + substituted(t.skip(1), m)
    }
}

/// A template without the token is left exactly as it stands.
pub proof fn lemma_substituted_absent_token(t: Seq<char>, m: Seq<char>)
    requires
        forall|i: int| !placeholder_at(t, i),
    ensures
        substituted(t, m) == t,
    decreases t.len(),
{
    if t.len() == 0 {
        assert(substituted(t, m) =~= t);
    } else {
        assert(!placeholder_at(t, 0));
        assert forall|i: int| !placeholder_at(t.skip(1), i) by {
            if placeholder_at(t.skip(1), i) {
                assert(t.subrange(i + 1, i + 10) =~= t.skip(1).subrange(i, i + 9));
                assert(placeholder_at(t, i + 1));
            }
        }
        lemma_substituted_absent_token(t.skip(1), m);
        assert(substituted(t, m) =~= t);
    }
}

fn placeholder_check(t: &str, i: usize, tlen: usize) -> (r: bool)
    requires
        tlen == t@.len(),
        i < tlen,
    ensures
        r == placeholder_at(t@, i as int),
{
    if tlen - i < 9 {
        return false;
    }
    let r = t.get_char(i) == '$' && t.get_char(i + 1) == '{' && t.get_char(i + 2) == 'm'
        && t.get_char(i + 3) == 'e' && t.get_char(i + 4) == 'm' && t.get_char(i + 5) == 'b'
        && t.get_char(i + 6) == 'e' && t.get_char(i + 7) == 'r' && t.get_char(i + 8) == '}';
    proof {
        if r {
            assert(t@.subrange(i as int, i as int + 9) =~= placeholder());
        } else {
            assert(t@.subrange(i as int, i as int + 9) != placeholder()) by {
                if t@.subrange(i as int, i as int + 9) == placeholder() {
                    assert(t@.subrange(i as int, i as int + 9)[0] == '$');
                    assert(t@.subrange(i as int, i as int + 9)[1] == '{');
                    assert(t@.subrange(i as int, i as int + 9)[2] == 'm');
                    assert(t@.subrange(i as int, i as int + 9)[3] == 'e');
                    assert(t@.subrange(i as int, i as int + 9)[4] == 'm');
                    assert(t@.subrange(i as int, i as int + 9)[5] == 'b');
                    assert(t@.subrange(i as int, i as int + 9)[6] == 'e');
                    assert(t@.subrange(i as int, i as int + 9)[7] == 'r');
                    assert(t@.subrange(i as int, i as int + 9)[8] == '}');
                }
            }
        }
    }
    r
}

proof fn lemma_substituted_step_token(t: Seq<char>, m: Seq<char>, i: int)
    requires
        0 <= i < t.len(),
        placeholder_at(t, i),
    ensures
        substituted(t.skip(i), m) == m + substituted(t.skip(i + 9), m),
{
    assert(t.skip(i).subrange(0, 9) =~= t.subrange(i, i + 9));
    assert(placeholder_at(t.skip(i), 0));
    assert(t.skip(i).skip(9) =~= t.skip(i + 9));
}

proof fn lemma_substituted_step_plain(t: Seq<char>, m: Seq<char>, i: int)
    requires
        0 <= i < t.len(),
        !placeholder_at(t, i),
    ensures
        substituted(t.skip(i), m) == seq![t[i]] + substituted(t.skip(i + 1), m),
{
    assert(t.skip(i).len() > 0);
    assert(!placeholder_at(t.skip(i), 0)) by {
        if placeholder_at(t.skip(i), 0) {
            assert(t.subrange(i, i + 9) =~= t.skip(i).subrange(0, 9));
        }
    }
    assert(t.skip(i)[0] == t[i]);
    assert(t.skip(i).skip(1) =~= t.skip(i + 1));
}

/// Substitute the member name for the placeholder token, building the
/// rewritten import path.
pub fn substitute(template: &str, member: &str) -> (r: String)
    ensures
        r@ == substituted(template@, member@),
{
    let tlen = template.unicode_len();
    let mut r = String::new();
    let mut i: usize = 0;
    proof {
        assert(template@.skip(0) =~= template@);
    }
    while i < tlen
        invariant
            tlen == template@.len(),
            0 <= i <= tlen,
            substituted(template@, member@) == r@ + substituted(
                template@.skip(i as int),
                member@,
            ),
        decreases tlen - i,
    {
        if placeholder_check(template, i, tlen) {
            proof {
                lemma_substituted_step_token(template@, member@, i as int);
            }
            r.append(member);
            i = i + 9;
        } else {
            proof {
                lemma_substituted_step_plain(template@, member@, i as int);
            }
            let c = template.substring_char(i, i + 1);
            r.append(c);
            i = i + 1;
        }
        proof {
            assert(substituted(template@, member@) == r@ + substituted(
                template@.skip(i as int),
                member@,
            ));
        }
    }
    proof {
        assert(template@.skip(tlen as int) =~= Seq::<char>::empty());
        assert(r@ + Seq::<char>::empty() =~= r@);
    }
    r
}

} // verus!
