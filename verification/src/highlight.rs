//! Highlight definitions: what a style class looks like, and the sets of them
//! that an emitter accepts.

use crate::error::{ConfigError, ConfigErrorSpec};
use crate::text::str_eq;
use vstd::prelude::*;
use vstd::string::*;

verus! {

/// The name of a palette color, `"NONE"` for no color at all, or nothing
/// where the definition leaves the color alone.
pub type ColorName = Option<&'static str>;

/// The style attribute of a highlight.
#[derive(Debug, Clone, Copy, PartialEq, Eq)]
pub enum HiAttr {
    /// The attribute is left alone.
    Nothing,
    /// Bold, unless the host has bold switched off.
    Bold,
    /// Italic, unless the host has italic switched off.
    Italic,
    Underline,
    Reverse,
    /// No attribute at all.
    Cleared,
    /// Italic where the host asks for comments in italic.
    CommentItalic,
    /// A wavy underline where the host can draw one, a straight one
    /// elsewhere.
    Undercurl,
}

/// One highlight definition.
#[derive(Debug, Clone, Copy)]
pub struct HiCommand {
    pub name: &'static str,
    pub fg: ColorName,
    pub bg: ColorName,
    pub sp: ColorName,
    pub attr: HiAttr,
}

/// A highlight definition with its names as texts.
pub struct HiCommandSpec {
    pub name: Seq<char>,
    pub fg: Option<Seq<char>>,
    pub bg: Option<Seq<char>>,
    pub sp: Option<Seq<char>>,
    pub attr: HiAttr,
}

/// A color name as text.
pub open spec fn color_name_spec(name: ColorName) -> Option<Seq<char>> {
    match name {
        Some(n) => Some(n@),
        None => None,
    }
}

impl View for HiCommand {
    type V = HiCommandSpec;

    open spec fn view(&self) -> HiCommandSpec {
        HiCommandSpec {
            name: self.name@,
            fg: color_name_spec(self.fg),
            bg: color_name_spec(self.bg),
            sp: color_name_spec(self.sp),
            attr: self.attr,
        }
    }
}

/// An entry of a highlight set: one definition for every host, or one for a
/// host with a graphical display and one for a host in a terminal.
#[derive(Debug, Clone, Copy)]
pub enum Highlight {
    Fixed(HiCommand),
    Dynamic { gui: HiCommand, term: HiCommand },
}

/// An entry with its names as texts.
pub enum HighlightSpec {
    Fixed(HiCommandSpec),
    Dynamic { gui: HiCommandSpec, term: HiCommandSpec },
}

impl View for Highlight {
    type V = HighlightSpec;

    open spec fn view(&self) -> HighlightSpec {
        match *self {
            Highlight::Fixed(c) => HighlightSpec::Fixed(c@),
            Highlight::Dynamic { gui, term } => HighlightSpec::Dynamic { gui: gui@, term: term@ },
        }
    }
}

impl HighlightSpec {
    /// The style class that the entry defines.
    pub open spec fn class_name(self) -> Seq<char> {
        match self {
            HighlightSpec::Fixed(c) => c.name,
            HighlightSpec::Dynamic { gui, .. } => gui.name,
        }
    }

    /// Both definitions of a two-fold entry are for the same style class.
    pub open spec fn paired(self) -> bool {
        match self {
            HighlightSpec::Fixed(_) => true,
            HighlightSpec::Dynamic { gui, term } => gui.name == term.name,
        }
    }
}

impl Highlight {
    /// The style class that the entry defines.
    pub fn class_name(&self) -> (name: &'static str)
        ensures
            name@ == self@.class_name(),
    {
        match self {
            Highlight::Fixed(c) => c.name,
            Highlight::Dynamic { gui, .. } => gui.name,
        }
    }
}

/// The entries of a list with their names as texts.
pub open spec fn highlights_of(entries: Seq<Highlight>) -> Seq<HighlightSpec> {
    Seq::new(entries.len(), |i: int| entries[i]@)
}

/// No two entries define the same style class, and the two definitions of
/// each two-fold entry are for the same style class.
pub open spec fn well_formed(rules: Seq<HighlightSpec>) -> bool {
    &&& forall|i: int| 0 <= i < rules.len() ==> (#[trigger] rules[i]).paired()
    &&& forall|i: int, j: int|
        0 <= i < j < rules.len() ==> (#[trigger] rules[i]).class_name() != (
        #[trigger] rules[j]).class_name()
}

/// Whether an entry before the one at `i` defines the same style class.
pub open spec fn defined_before(rules: Seq<HighlightSpec>, i: int) -> bool {
    exists|j: int| 0 <= j < i && (#[trigger] rules[j]).class_name() == rules[i].class_name()
}

/// What is wrong with the entry at `i`, given those before it.
pub open spec fn entry_defect(rules: Seq<HighlightSpec>, i: int) -> Option<ConfigErrorSpec> {
    match rules[i] {
        HighlightSpec::Dynamic { gui, term } if gui.name != term.name => Some(
            ConfigErrorSpec::MismatchedHighlight(gui.name, term.name),
        ),
        _ => if defined_before(rules, i) {
            Some(ConfigErrorSpec::DuplicateHighlight(rules[i].class_name()))
        } else {
            None
        },
    }
}

/// What is wrong with the first of the first `n` entries that has a defect.
pub open spec fn first_defect(rules: Seq<HighlightSpec>, n: int) -> Option<ConfigErrorSpec>
    decreases n,
{
    if n <= 0 {
        None
    } else {
        match first_defect(rules, n - 1) {
            Some(e) => Some(e),
            None => entry_defect(rules, n - 1),
        }
    }
}

/// A list of entries is well formed exactly when none of them has a defect.
pub proof fn lemma_no_defect_iff_well_formed(rules: Seq<HighlightSpec>, n: int)
    requires
        0 <= n <= rules.len(),
    ensures
        first_defect(rules, n) is None <==> well_formed(rules.take(n)),
    decreases n,
{
    let now = rules.take(n);
    if n > 0 {
        lemma_no_defect_iff_well_formed(rules, n - 1);
        if well_formed(now) {
            assert(now[n - 1].paired());
            if defined_before(rules, n - 1) {
                let j = choose|j: int|
                    0 <= j < n - 1 && (#[trigger] rules[j]).class_name() == rules[n
                        - 1].class_name();
                assert(now[j].class_name() != now[n - 1].class_name());
            }
        }
    }
}

/// A defect found among the first `m` entries is the one found among more.
pub proof fn lemma_defect_persists(rules: Seq<HighlightSpec>, m: int, n: int)
    requires
        m <= n,
        first_defect(rules, m) is Some,
    ensures
        first_defect(rules, n) == first_defect(rules, m),
    decreases n - m,
{
    if m < n {
        lemma_defect_persists(rules, m, n - 1);
    }
}

/// A highlight set: entries in the order in which they are emitted, no two
/// for the same style class.
pub struct HighlightSet {
    entries: Vec<Highlight>,
}

impl View for HighlightSet {
    type V = Seq<HighlightSpec>;

    closed spec fn view(&self) -> Seq<HighlightSpec> {
        highlights_of(self.entries@)
    }
}

impl HighlightSet {
    #[verifier::type_invariant]
    spec fn entries_well_formed(&self) -> bool {
        well_formed(highlights_of(self.entries@))
    }

    /// Makes a set of `entries`, or says what is wrong with the first entry
    /// that cannot stand in one.
    pub fn new(entries: Vec<Highlight>) -> (made: Result<HighlightSet, ConfigError>)
        ensures
            match made {
                Ok(set) => {
                    &&& set@ == highlights_of(entries@)
                    &&& well_formed(set@)
                },
                Err(e) => {
                    &&& !well_formed(highlights_of(entries@))
                    &&& first_defect(highlights_of(entries@), entries@.len() as int) == Some(e@)
                },
            },
    {
        let ghost rules = highlights_of(entries@);
        let mut i: usize = 0;
        while i < entries.len()
            invariant
                i <= entries@.len(),
                rules == highlights_of(entries@),
                first_defect(rules, i as int) is None,
            decreases entries@.len() - i,
        {
            match &entries[i] {
                Highlight::Dynamic { gui, term } => {
                    if !str_eq(gui.name, term.name) {
                        proof {
                            lemma_defect_persists(rules, i + 1, rules.len() as int);
                        }
                        return Err(
                            ConfigError::MismatchedHighlight(
                                String::from_str(gui.name),
                                String::from_str(term.name),
                            ),
                        );
                    }
                },
                Highlight::Fixed(_) => {},
            }
            let name = entries[i].class_name();
            let mut j: usize = 0;
            while j < i
                invariant
                    j <= i < entries@.len(),
                    rules == highlights_of(entries@),
                    name@ == rules[i as int].class_name(),
                    rules[i as int].paired(),
                    first_defect(rules, i as int) is None,
                    forall|k: int| 0 <= k < j ==> (#[trigger] rules[k]).class_name() != name@,
                decreases i - j,
            {
                if str_eq(entries[j].class_name(), name) {
                    proof {
                        assert(rules[j as int].class_name() == rules[i as int].class_name());
                        lemma_defect_persists(rules, i + 1, rules.len() as int);
                    }
                    return Err(ConfigError::DuplicateHighlight(String::from_str(name)));
                }
                j += 1;
            }
            i += 1;
        }
        proof {
            lemma_no_defect_iff_well_formed(rules, rules.len() as int);
            assert(rules.take(rules.len() as int) =~= rules);
        }
        Ok(HighlightSet { entries })
    }

    /// Makes a set of entries that are known to be well formed.
    pub(crate) fn from_well_formed(entries: Vec<Highlight>) -> (set: HighlightSet)
        requires
            well_formed(highlights_of(entries@)),
        ensures
            set@ == highlights_of(entries@),
    {
        HighlightSet { entries }
    }

    /// The set without entries.
    pub fn empty() -> (set: HighlightSet)
        ensures
            set@ == Seq::<HighlightSpec>::empty(),
    {
        HighlightSet { entries: Vec::new() }
    }

    /// The entries, in the order in which they are emitted.
    pub fn entries(&self) -> (entries: &Vec<Highlight>)
        ensures
            highlights_of(entries@) == self@,
            well_formed(self@),
    {
        proof {
            use_type_invariant(self);
        }
        &self.entries
    }

    /// The number of entries.
    pub fn len(&self) -> (n: usize)
        ensures
            n == self@.len(),
    {
        self.entries.len()
    }
}

} // verus!
