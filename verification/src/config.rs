//! The configuration table: one rewrite policy per import source string.

use vstd::prelude::*;
use crate::case::TransformMember;
use crate::case::str_eq;

verus! {

/// The rewrite policy for one import source.
#[derive(Debug, PartialEq, Eq, Clone)]
pub struct TransformVisitorSubConfig {
    /// Template for the per-member import path; every `${member}` in it is
    /// replaced with the transformed member name.
    pub transform: String,
    /// If true, a rewritten named specifier keeps its named-import form
    /// instead of becoming a default import.
    pub skip_default_conversion: bool,
    /// If true, a default or namespace specifier on this source is a fatal
    /// error.
    pub prevent_full_import: bool,
    /// If present, one extra side-effect import is emitted per rewritten
    /// member, with its path computed from this template.
    pub style: Option<String>,
    /// Case styles applied to the member name, left to right, before
    /// substitution.
    pub member_transformers: Vec<TransformMember>,
}

/// The mathematical value of one rewrite policy.
#[verifier::ext_equal]
pub struct SubConfigView {
    pub transform: Seq<char>,
    pub skip_default_conversion: bool,
    pub prevent_full_import: bool,
    pub style: Option<Seq<char>>,
    pub member_transformers: Seq<TransformMember>,
}

impl View for TransformVisitorSubConfig {
    type V = SubConfigView;

    open spec fn view(&self) -> SubConfigView {
        SubConfigView {
            transform: self.transform@,
            skip_default_conversion: self.skip_default_conversion,
            prevent_full_import: self.prevent_full_import,
            style: match &self.style {
                Some(s) => Some(s@),
                None => None,
            },
            member_transformers: self.member_transformers@,
        }
    }
}

impl TransformVisitorSubConfig {
    /// A policy with only the path template set and every other field at its
    /// default: named specifiers become default imports, full imports are
    /// forbidden, no style import, no case transformation.
    pub fn new(transform: String) -> (r: TransformVisitorSubConfig)
        ensures
            r@.transform == transform@,
            r@.skip_default_conversion == false,
            r@.prevent_full_import == true,
            r@.style is None,
            r@.member_transformers == Seq::<TransformMember>::empty(),
    {
        TransformVisitorSubConfig {
            transform,
            skip_default_conversion: false,
            prevent_full_import: true,
            style: None,
            member_transformers: Vec::new(),
        }
    }
}

/// One table entry: a source string and its policy.
#[derive(Debug, PartialEq, Eq, Clone)]
pub struct ConfigEntry {
    pub source: String,
    pub config: TransformVisitorSubConfig,
}

/// The configuration table. Source strings are expected to be unique; where
/// a source repeats, the first entry wins.
#[derive(Debug, PartialEq, Eq, Clone)]
pub struct TransformVisitorConfigs {
    pub entries: Vec<ConfigEntry>,
}

impl View for TransformVisitorConfigs {
    type V = Seq<(Seq<char>, SubConfigView)>;

    open spec fn view(&self) -> Seq<(Seq<char>, SubConfigView)> {
        self.entries@.map_values(|e: ConfigEntry| (e.source@, e.config@))
    }
}

/// The policy a table assigns to a source: that of the first entry whose
/// source string matches, none where no entry matches.
pub open spec fn config_for(cs: Seq<(Seq<char>, SubConfigView)>, src: Seq<char>) -> Option<
    SubConfigView,
>
    decreases cs.len(),
{
    if cs.len() == 0 {
        None
    } else if cs[0].0 == src {
        Some(cs[0].1)
    } else {
        config_for(cs.skip(1), src)
    }
}

proof fn lemma_config_for_step(cs: Seq<(Seq<char>, SubConfigView)>, src: Seq<char>, i: int)
    requires
        0 <= i < cs.len(),
        cs[i].0 != src,
    ensures
        config_for(cs.skip(i), src) == config_for(cs.skip(i + 1), src),
{
    assert(cs.skip(i)[0] == cs[i]);
    assert(cs.skip(i).skip(1) =~= cs.skip(i + 1));
}

proof fn lemma_config_for_found(cs: Seq<(Seq<char>, SubConfigView)>, src: Seq<char>, i: int)
    requires
        0 <= i < cs.len(),
        cs[i].0 == src,
    ensures
        config_for(cs.skip(i), src) == Some(cs[i].1),
{
    assert(cs.skip(i)[0] == cs[i]);
}

impl TransformVisitorConfigs {
    /// The empty table: no source is configured, rewriting changes nothing.
    pub fn new() -> (r: TransformVisitorConfigs)
        ensures
            r@ == Seq::<(Seq<char>, SubConfigView)>::empty(),
    {
        let r = TransformVisitorConfigs { entries: Vec::new() };
        proof {
            assert(r@ =~= Seq::<(Seq<char>, SubConfigView)>::empty());
        }
        r
    }

    /// Add the policy for one source at the end of the table.
    pub fn insert_config(&mut self, source: String, config: TransformVisitorSubConfig)
        ensures
            final(self)@ == old(self)@.push((source@, config@)),
    {
        let ghost before = self@;
        self.entries.push(ConfigEntry { source, config });
        proof {
            assert(self@ =~= before.push((self.entries@.last().source@,
                self.entries@.last().config@)));
        }
    }

    /// Whether the table has no entry.
    pub fn is_empty(&self) -> (r: bool)
        ensures
            r == (self@.len() == 0),
    {
        self.entries.len() == 0
    }

    /// Look up the policy for a source string.
    pub fn lookup(&self, src: &str) -> (r: Option<&TransformVisitorSubConfig>)
        ensures
            match r {
                Some(c) => config_for(self@, src@) == Some(c@),
                None => config_for(self@, src@) is None,
            },
    {
        proof {
            assert(self@.skip(0) =~= self@);
        }
        let mut i: usize = 0;
        while i < self.entries.len()
            invariant
                0 <= i <= self.entries@.len(),
                self@.len() == self.entries@.len(),
                forall|j: int| 0 <= j < self@.len() ==> #[trigger] self@[j] == (
                self.entries@[j].source@, self.entries@[j].config@),
                config_for(self@, src@) == config_for(self@.skip(i as int), src@),
            decreases self.entries@.len() - i,
        {
            if str_eq(self.entries[i].source.as_str(), src) {
                proof {
                    lemma_config_for_found(self@, src@, i as int);
                }
                return Some(&self.entries[i].config);
            }
            proof {
                lemma_config_for_step(self@, src@, i as int);
            }
            i = i + 1;
        }
        proof {
            assert(self@.skip(self@.len() as int) =~= Seq::<(Seq<char>, SubConfigView)>::empty());
        }
        None
    }
}

} // verus!
