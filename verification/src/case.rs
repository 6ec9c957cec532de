//! The name-case transformer registry and the member-name pipeline.

use vstd::prelude::*;
use vstd::string::StrSliceExecFns;

verus! {

/// The closed set of case styles a member name can be rewritten with.
/// `DashedCase` is an alias of `KebabCase`: both styles rewrite with the same
/// function.
#[derive(Clone, Copy, PartialEq, Eq, Structural, Debug, Hash)]
pub enum TransformMember {
    CamelCase,
    KebabCase,
    DashedCase,
    PascalCase,
    SnakeCase,
    UpperCase,
    UpperFirst,
    LowerCase,
    LowerFirst,
}

pub uninterp spec fn camel_of(s: Seq<char>) -> Seq<char>;

pub uninterp spec fn kebab_of(s: Seq<char>) -> Seq<char>;

pub uninterp spec fn pascal_of(s: Seq<char>) -> Seq<char>;

pub uninterp spec fn snake_of(s: Seq<char>) -> Seq<char>;

pub uninterp spec fn upper_of(s: Seq<char>) -> Seq<char>;

pub uninterp spec fn upper_first_of(s: Seq<char>) -> Seq<char>;

pub uninterp spec fn lower_of(s: Seq<char>) -> Seq<char>;

pub uninterp spec fn lower_first_of(s: Seq<char>) -> Seq<char>;

/// Relies on voca_rs::case::camel_case: the result depends on the input
/// characters alone.
#[verifier::external_body]
fn camel_case(s: &str) -> (r: String)
    ensures
        r@ == camel_of(s@),
{
    voca_rs::case::camel_case(s)
}

/// Relies on voca_rs::case::kebab_case: the result depends on the input
/// characters alone.
#[verifier::external_body]
fn kebab_case(s: &str) -> (r: String)
    ensures
        r@ == kebab_of(s@),
{
    voca_rs::case::kebab_case(s)
}

/// Relies on voca_rs::case::pascal_case: the result depends on the input
/// characters alone.
#[verifier::external_body]
fn pascal_case(s: &str) -> (r: String)
    ensures
        r@ == pascal_of(s@),
{
    voca_rs::case::pascal_case(s)
}

/// Relies on voca_rs::case::snake_case: the result depends on the input
/// characters alone.
#[verifier::external_body]
fn snake_case(s: &str) -> (r: String)
    ensures
        r@ == snake_of(s@),
{
    voca_rs::case::snake_case(s)
}

/// Relies on voca_rs::case::upper_case: the result depends on the input
/// characters alone.
#[verifier::external_body]
fn upper_case(s: &str) -> (r: String)
    ensures
        r@ == upper_of(s@),
{
    voca_rs::case::upper_case(s)
}

/// Relies on voca_rs::case::upper_first: the result depends on the input
/// characters alone.
#[verifier::external_body]
fn upper_first(s: &str) -> (r: String)
    ensures
        r@ == upper_first_of(s@),
{
    voca_rs::case::upper_first(s)
}

/// Relies on voca_rs::case::lower_case: the result depends on the input
/// characters alone.
#[verifier::external_body]
fn lower_case(s: &str) -> (r: String)
    ensures
        r@ == lower_of(s@),
{
    voca_rs::case::lower_case(s)
}

/// Relies on voca_rs::case::lower_first: the result depends on the input
/// characters alone.
#[verifier::external_body]
fn lower_first(s: &str) -> (r: String)
    ensures
        r@ == lower_first_of(s@),
{
    voca_rs::case::lower_first(s)
}

/// What one case style does to a name, as the registry assigns functions to
/// styles: `DashedCase` and `KebabCase` share the kebab rewriting.
pub open spec fn case_of(t: TransformMember, s: Seq<char>) -> Seq<char> {
    match t {
        TransformMember::CamelCase => camel_of(s),
        TransformMember::KebabCase => kebab_of(s),
        TransformMember::DashedCase => kebab_of(s),
        TransformMember::PascalCase => pascal_of(s),
        TransformMember::SnakeCase => snake_of(s),
        TransformMember::UpperCase => upper_of(s),
        TransformMember::UpperFirst => upper_first_of(s),
        TransformMember::LowerCase => lower_of(s),
        TransformMember::LowerFirst => lower_first_of(s),
    }
}

/// The `dashed` style is an alias: it rewrites exactly as the kebab style
/// does, on every input.
pub proof fn lemma_dashed_equals_kebab(s: Seq<char>)
    ensures
        case_of(TransformMember::DashedCase, s) == case_of(TransformMember::KebabCase, s),
{
}

/// Apply one case style to a name.
pub fn apply_case_transformer(t: TransformMember, s: &str) -> (r: String)
    ensures
        r@ == case_of(t, s@),
{
    match t {
        TransformMember::CamelCase => camel_case(s),
        TransformMember::KebabCase => kebab_case(s),
        TransformMember::DashedCase => kebab_case(s),
        TransformMember::PascalCase => pascal_case(s),
        TransformMember::SnakeCase => snake_case(s),
        TransformMember::UpperCase => upper_case(s),
        TransformMember::UpperFirst => upper_first(s),
        TransformMember::LowerCase => lower_case(s),
        TransformMember::LowerFirst => lower_first(s),
    }
}

/// The member-name pipeline: the output of each stage is the input to the
/// next; the empty sequence of styles is the identity.
pub open spec fn pipeline_of(s: Seq<char>, ts: Seq<TransformMember>) -> Seq<char>
    decreases ts.len(),
{
    if ts.len() == 0 {
        s
    } else {
        pipeline_of(case_of(ts[0], s), ts.skip(1))
    }
}

proof fn lemma_pipeline_step(s: Seq<char>, ts: Seq<TransformMember>, i: int)
    requires
        0 <= i < ts.len(),
    ensures
        pipeline_of(s, ts.skip(i)) == pipeline_of(case_of(ts[i], s), ts.skip(i + 1)),
{
    let tail = ts.skip(i);
    assert(tail[0] == ts[i]);
    assert(tail.skip(1) =~= ts.skip(i + 1));
}

/// The member-name pipeline is deterministic: its result is a function of the
/// raw name and the transformer sequence alone.
pub proof fn lemma_pipeline_deterministic(
    name1: Seq<char>,
    name2: Seq<char>,
    ts1: Seq<TransformMember>,
    ts2: Seq<TransformMember>,
)
    requires
        name1 == name2,
        ts1 == ts2,
    ensures
        pipeline_of(name1, ts1) == pipeline_of(name2, ts2),
{
}

/// Run the whole pipeline over a raw member name, style by style, left to
/// right.
pub fn apply_member_transformers(name: &str, ts: &Vec<TransformMember>) -> (r: String)
    ensures
        r@ == pipeline_of(name@, ts@),
{
    let mut r: String = name.to_owned();
    let mut i: usize = 0;
    proof {
        assert(ts@.skip(0) =~= ts@);
    }
    while i < ts.len()
        invariant
            0 <= i <= ts@.len(),
            pipeline_of(name@, ts@) == pipeline_of(r@, ts@.skip(i as int)),
        decreases ts@.len() - i,
    {
        proof {
            lemma_pipeline_step(r@, ts@, i as int);
        }
        r = apply_case_transformer(ts[i], r.as_str());
        i = i + 1;
    }
    proof {
        assert(ts@.skip(ts@.len() as int) =~= Seq::<TransformMember>::empty());
    }
    r
}

/// Character-for-character equality of two string slices.
pub fn str_eq(a: &str, b: &str) -> (r: bool)
    ensures
        r == (a@ == b@),
{
    let alen = a.unicode_len();
    let blen = b.unicode_len();
    if alen != blen {
        return false;
    }
    let mut i: usize = 0;
    while i < alen
        invariant
            alen == a@.len(),
            blen == b@.len(),
            alen == blen,
            0 <= i <= alen,
            forall|j: int| 0 <= j < i ==> a@[j] == b@[j],
        decreases alen - i,
    {
        if a.get_char(i) != b.get_char(i) {
            return false;
        }
        i = i + 1;
    }
    proof {
        assert(a@ =~= b@);
    }
    true
}

/// The external, serialized name of each case style, as the configuration
/// format writes it.
pub open spec fn case_tag_of(s: Seq<char>) -> Option<TransformMember> {
    if s == "camel_case"@ {
        Some(TransformMember::CamelCase)
    } else if s == "kebab_case"@ {
        Some(TransformMember::KebabCase)
    } else if s == "dashed_case"@ {
        Some(TransformMember::DashedCase)
    } else if s == "pascal_case"@ {
        Some(TransformMember::PascalCase)
    } else if s == "snake_case"@ {
        Some(TransformMember::SnakeCase)
    } else if s == "upper_case"@ {
        Some(TransformMember::UpperCase)
    } else if s == "upper_first"@ {
        Some(TransformMember::UpperFirst)
    } else if s == "lower_case"@ {
        Some(TransformMember::LowerCase)
    } else if s == "lower_first"@ {
        Some(TransformMember::LowerFirst)
    } else {
        None
    }
}

/// Parse the serialized name of a case style; `None` for an unknown tag.
pub fn parse_case_tag(s: &str) -> (r: Option<TransformMember>)
    ensures
        r == case_tag_of(s@),
{
    if str_eq(s, "camel_case") {
        Some(TransformMember::CamelCase)
    } else if str_eq(s, "kebab_case") {
        Some(TransformMember::KebabCase)
    } else if str_eq(s, "dashed_case") {
        Some(TransformMember::DashedCase)
    } else if str_eq(s, "pascal_case") {
        Some(TransformMember::PascalCase)
    } else if str_eq(s, "snake_case") {
        Some(TransformMember::SnakeCase)
    } else if str_eq(s, "upper_case") {
        Some(TransformMember::UpperCase)
    } else if str_eq(s, "upper_first") {
        Some(TransformMember::UpperFirst)
    } else if str_eq(s, "lower_case") {
        Some(TransformMember::LowerCase)
    } else if str_eq(s, "lower_first") {
        Some(TransformMember::LowerFirst)
    } else {
        None
    }
}

} // verus!
