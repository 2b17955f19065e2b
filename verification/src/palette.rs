//! The palette: colors by name, each with a display value and a terminal
//! index, either of which may come in a high-contrast and a low-contrast form.

use crate::error::{ConfigError, ConfigErrorSpec};
use crate::text::{
    lemma_name_lt_irreflexive, lemma_name_lt_total, lemma_name_lt_transitive, name_lt, str_eq,
    str_lt,
};
use vstd::prelude::*;
use vstd::string::*;

verus! {

/// One value, or two between which the host chooses when it loads the output.
#[derive(Debug, Clone, Copy, PartialEq, Eq)]
pub enum ColorCode<T> {
    Normal(T),
    Contrast(T, T),
}

impl<T> ColorCode<T> {
    /// The value used where no choice is offered: the only one, or the
    /// high-contrast one of two.
    pub open spec fn spec_normal(self) -> T {
        match self {
            ColorCode::Normal(c) => c,
            ColorCode::Contrast(high, _) => high,
        }
    }

    /// The value for a host that asks for high contrast, or for one that
    /// does not; the only value where there is no choice.
    pub open spec fn spec_pick(self, high_contrast: bool) -> T {
        match self {
            ColorCode::Normal(c) => c,
            ColorCode::Contrast(high, low) => if high_contrast {
                high
            } else {
                low
            },
        }
    }

    /// The value for a host that asks for high contrast, or for one that
    /// does not; the only value where there is no choice.
    pub fn pick(&self, high_contrast: bool) -> (value: &T)
        ensures
            *value == self.spec_pick(high_contrast),
    {
        match self {
            ColorCode::Normal(c) => c,
            ColorCode::Contrast(high, low) => if high_contrast {
                high
            } else {
                low
            },
        }
    }

    /// The value used where no choice is offered.
    pub fn normal(&self) -> (value: &T)
        ensures
            *value == self.spec_normal(),
    {
        match self {
            ColorCode::Normal(c) => c,
            ColorCode::Contrast(high, _) => high,
        }
    }
}

/// The value used where no choice is offered is the one for a host that asks
/// for high contrast.
pub proof fn lemma_normal_is_high_contrast<T>(code: ColorCode<T>)
    ensures
        code.spec_normal() == code.spec_pick(true),
{
}

/// A color as the palette holds it: a value for a graphical display and an
/// index into the colors of a terminal, either of which may come in two
/// forms whatever the other does.
#[derive(Debug, Clone, Copy, PartialEq, Eq)]
pub struct Color<'a> {
    pub gui: ColorCode<&'a str>,
    pub cterm: ColorCode<u8>,
}

/// A color with its display values as texts.
pub struct ColorSpec {
    pub gui: ColorCode<Seq<char>>,
    pub cterm: ColorCode<u8>,
}

/// The display value as text.
pub open spec fn gui_spec(code: ColorCode<&str>) -> ColorCode<Seq<char>> {
    match code {
        ColorCode::Normal(c) => ColorCode::Normal(c@),
        ColorCode::Contrast(high, low) => ColorCode::Contrast(high@, low@),
    }
}

impl<'a> View for Color<'a> {
    type V = ColorSpec;

    open spec fn view(&self) -> ColorSpec {
        ColorSpec { gui: gui_spec(self.gui), cterm: self.cterm }
    }
}

impl<'a> Color<'a> {
    /// The display value where no choice is offered.
    pub fn gui_normal(&self) -> (value: &'a str)
        ensures
            value@ == self@.gui.spec_normal(),
    {
        *self.gui.normal()
    }

    /// The terminal index where no choice is offered.
    pub fn cterm_normal(&self) -> (index: u8)
        ensures
            index == self@.cterm.spec_normal(),
    {
        *self.cterm.normal()
    }
}

/// The names of a palette as a map of colors.
pub type Colors = Map<Seq<char>, ColorSpec>;

/// The texts of a list of names.
pub open spec fn names_of(names: Seq<&str>) -> Seq<Seq<char>> {
    Seq::new(names.len(), |i: int| names[i]@)
}

/// Each name comes before all that follow it.
pub open spec fn strictly_sorted(names: Seq<Seq<char>>) -> bool {
    forall|i: int, j: int| 0 <= i < j < names.len() ==> name_lt(names[i], names[j])
}

/// `names` holds exactly the members of `domain`, in ascending order.
pub open spec fn lists_in_order(names: Seq<Seq<char>>, domain: Set<Seq<char>>) -> bool {
    &&& strictly_sorted(names)
    &&& forall|k: Seq<char>| domain.contains(k) <==> names.contains(k)
}

/// The names of `colors` in ascending order.
pub open spec fn sorted_names(colors: Colors) -> Seq<Seq<char>> {
    choose|names: Seq<Seq<char>>| lists_in_order(names, colors.dom())
}

/// A set of names has at most one listing in ascending order.
pub proof fn lemma_listing_unique(a: Seq<Seq<char>>, b: Seq<Seq<char>>, domain: Set<Seq<char>>)
    requires
        lists_in_order(a, domain),
        lists_in_order(b, domain),
    ensures
        a == b,
    decreases a.len(),
{
    if a.len() == 0 {
        if b.len() > 0 {
            assert(b.contains(b[0]));
        }
    } else {
        let n = a.len() - 1;
        let last = a[n];
        assert(a.contains(last));
        let m = choose|m: int| 0 <= m < b.len() && b[m] == last;
        // `last` is the greatest member, so it is the last of `b` too.
        if m < b.len() - 1 {
            let other = b[b.len() - 1];
            assert(b.contains(other));
            let k = choose|k: int| 0 <= k < a.len() && a[k] == other;
            if k < n {
                lemma_name_lt_transitive(other, last, other);
            }
            lemma_name_lt_irreflexive(other);
        }
        let rest = domain.remove(last);
        let a0 = a.drop_last();
        let b0 = b.drop_last();
        assert forall|k: Seq<char>| rest.contains(k) <==> a0.contains(k) by {
            if rest.contains(k) {
                let i = choose|i: int| 0 <= i < a.len() && a[i] == k;
                assert(a0[i] == k);
            }
            if a0.contains(k) {
                lemma_name_lt_irreflexive(last);
            }
        }
        assert forall|k: Seq<char>| rest.contains(k) <==> b0.contains(k) by {
            if rest.contains(k) {
                let i = choose|i: int| 0 <= i < b.len() && b[i] == k;
                assert(b0[i] == k);
            }
            if b0.contains(k) {
                lemma_name_lt_irreflexive(last);
            }
        }
        lemma_listing_unique(a0, b0, rest);
        assert(a =~= a0.push(last));
    }
}

/// The first of the first `n` of `names` that `colors` lacks.
pub open spec fn first_missing(colors: Colors, names: Seq<Seq<char>>, n: int) -> Option<Seq<char>>
    decreases n,
{
    if n <= 0 {
        None
    } else if first_missing(colors, names, n - 1) is Some {
        first_missing(colors, names, n - 1)
    } else if !colors.contains_key(names[n - 1]) {
        Some(names[n - 1])
    } else {
        None
    }
}

/// A missing name found among the first `m` names is the one found among
/// more.
pub proof fn lemma_missing_persists(colors: Colors, names: Seq<Seq<char>>, m: int, n: int)
    requires
        m <= n,
        first_missing(colors, names, m) is Some,
    ensures
        first_missing(colors, names, n) == first_missing(colors, names, m),
    decreases n - m,
{
    if m < n {
        lemma_missing_persists(colors, names, m, n - 1);
    }
}

/// Where `colors` holds each of the first `n` names, none of them is missing.
pub proof fn lemma_none_missing(colors: Colors, names: Seq<Seq<char>>, n: int)
    requires
        0 <= n <= names.len(),
        forall|i: int| 0 <= i < n ==> colors.contains_key(#[trigger] names[i]),
    ensures
        first_missing(colors, names, n) is None,
    decreases n,
{
    if n > 0 {
        lemma_none_missing(colors, names, n - 1);
    }
}

/// `found` holds the color of each of `names`, in their order.
pub open spec fn resolves(found: Seq<Color>, colors: Colors, names: Seq<Seq<char>>) -> bool {
    &&& found.len() == names.len()
    &&& forall|i: int|
        0 <= i < names.len() ==> colors.contains_key(#[trigger] names[i]) && found[i]@
            == colors[names[i]]
}

/// Two colors that are put into a palette under different names may be put
/// into it in either order.
pub proof fn lemma_insert_commutes(
    colors: Colors,
    first: Seq<char>,
    first_color: ColorSpec,
    second: Seq<char>,
    second_color: ColorSpec,
)
    requires
        first != second,
    ensures
        colors.insert(first, first_color).insert(second, second_color) == colors.insert(
            second,
            second_color,
        ).insert(first, first_color),
{
}

/// One entry of the palette's storage.
struct Entry<'a> {
    name: &'a str,
    color: Color<'a>,
}

/// No name occurs twice.
spec fn names_distinct(entries: Seq<Entry>) -> bool {
    forall|i: int, j: int|
        0 <= i < j < entries.len() ==> (#[trigger] entries[i]).name@ != (#[trigger] entries[j]).name@
}

/// Where `name` stands in `entries`.
spec fn position(entries: Seq<Entry>, name: Seq<char>) -> int {
    choose|i: int| 0 <= i < entries.len() && (#[trigger] entries[i]).name@ == name
}

/// Whether `name` stands in `entries`.
spec fn holds(entries: Seq<Entry>, name: Seq<char>) -> bool {
    exists|i: int| 0 <= i < entries.len() && (#[trigger] entries[i]).name@ == name
}

/// The map that `entries` stands for.
spec fn colors_of(entries: Seq<Entry>) -> Colors {
    Map::new(
        |name: Seq<char>| holds(entries, name),
        |name: Seq<char>| entries[position(entries, name)].color@,
    )
}

/// What a prefix of the entries holds once it is made one entry longer.
proof fn lemma_holds_next(entries: Seq<Entry>, i: int)
    requires
        0 <= i < entries.len(),
    ensures
        forall|k: Seq<char>|
            holds(entries.take(i + 1), k) <==> (k == entries[i].name@ || holds(entries.take(i), k)),
{
    let shorter = entries.take(i);
    let longer = entries.take(i + 1);
    assert forall|k: Seq<char>| holds(longer, k) <==> (k == entries[i].name@ || holds(
        shorter,
        k,
    )) by {
        if k == entries[i].name@ {
            assert(longer[i].name@ == k);
        }
    }
}

/// A name put at its place into an ascending list leaves the list ascending.
proof fn lemma_insert_keeps_order(before: Seq<Seq<char>>, p: int, name: Seq<char>)
    requires
        strictly_sorted(before),
        !before.contains(name),
        0 <= p <= before.len(),
        forall|q: int| 0 <= q < p ==> name_lt(#[trigger] before[q], name),
        p < before.len() ==> !name_lt(before[p], name),
    ensures
        strictly_sorted(before.insert(p, name)),
        forall|k: Seq<char>| before.insert(p, name).contains(k) <==> (k == name || before.contains(k)),
{
    let after = before.insert(p, name);
    assert forall|q: int| p <= q < before.len() implies name_lt(name, #[trigger] before[q]) by {
        lemma_name_lt_total(name, before[p]);
        if q > p {
            lemma_name_lt_transitive(name, before[p], before[q]);
        }
    }
    assert forall|k: Seq<char>| after.contains(k) <==> (k == name || before.contains(k)) by {
        if before.contains(k) {
            let i = choose|i: int| 0 <= i < before.len() && before[i] == k;
            if i < p {
                assert(after[i] == k);
            } else {
                assert(after[i + 1] == k);
            }
        }
        if k == name {
            assert(after[p] == k);
        }
    }
}

/// Puts `name` at its place into an ascending list of names.
fn insert_in_order<'a>(names: &mut Vec<&'a str>, name: &'a str)
    requires
        strictly_sorted(names_of(old(names)@)),
        !names_of(old(names)@).contains(name@),
    ensures
        strictly_sorted(names_of(final(names)@)),
        forall|k: Seq<char>|
            names_of(final(names)@).contains(k) <==> (k == name@ || names_of(old(names)@).contains(
                k,
            )),
{
    let mut p: usize = 0;
    while p < names.len() && str_lt(names[p], name)
        invariant
            p <= names@.len(),
            forall|q: int| 0 <= q < p ==> name_lt(#[trigger] names_of(names@)[q], name@),
        decreases names@.len() - p,
    {
        p += 1;
    }
    let ghost before = names@;
    names.insert(p, name);
    proof {
        assert(names_of(names@) =~= names_of(before).insert(p as int, name@));
        lemma_insert_keeps_order(names_of(before), p as int, name@);
    }
}

/// A set of named colors. How the entries are stored does not show: two
/// palettes that hold the same colors under the same names are alike in all
/// that this library does with them.
pub struct Palette<'a> {
    entries: Vec<Entry<'a>>,
}

impl<'a> View for Palette<'a> {
    type V = Colors;

    closed spec fn view(&self) -> Colors {
        colors_of(self.entries@)
    }
}

impl<'a> Palette<'a> {
    #[verifier::type_invariant]
    spec fn names_are_distinct(&self) -> bool {
        names_distinct(self.entries@)
    }

    /// The palette without colors.
    pub fn new() -> (palette: Self)
        ensures
            palette@ == Map::<Seq<char>, ColorSpec>::empty(),
    {
        Palette { entries: Vec::new() }
    }

    /// Where `name` is stored, if it is.
    fn find(&self, name: &str) -> (found: Option<usize>)
        ensures
            match found {
                Some(i) => i < self.entries@.len() && self.entries@[i as int].name@ == name@,
                None => !holds(self.entries@, name@),
            },
    {
        let mut i: usize = 0;
        while i < self.entries.len()
            invariant
                i <= self.entries@.len(),
                forall|k: int| 0 <= k < i ==> (#[trigger] self.entries@[k]).name@ != name@,
            decreases self.entries@.len() - i,
        {
            if str_eq(self.entries[i].name, name) {
                return Some(i);
            }
            i += 1;
        }
        None
    }

    /// The color called `name`.
    pub fn get(&self, name: &str) -> (color: Option<&Color<'a>>)
        ensures
            match color {
                Some(c) => self@.contains_key(name@) && c@ == self@[name@],
                None => !self@.contains_key(name@),
            },
    {
        proof {
            use_type_invariant(self);
        }
        match self.find(name) {
            Some(i) => Some(&self.entries[i].color),
            None => None,
        }
    }

    /// The color called `name`, or the name as that of an unknown color.
    pub fn lookup(&self, name: &str) -> (found: Result<&Color<'a>, ConfigError>)
        ensures
            match found {
                Ok(c) => self@.contains_key(name@) && c@ == self@[name@],
                Err(e) => !self@.contains_key(name@) && e@ == ConfigErrorSpec::UnknownColorName(
                    name@,
                ),
            },
    {
        match self.get(name) {
            Some(c) => Ok(c),
            None => Err(ConfigError::UnknownColorName(String::from_str(name))),
        }
    }

    /// The colors called `names`, one after the other; or the first of
    /// `names` that is the name of no color.
    pub fn resolve(&self, names: &[&str]) -> (found: Result<Vec<Color<'a>>, ConfigError>)
        ensures
            match found {
                Ok(list) => {
                    &&& first_missing(self@, names_of(names@), names@.len() as int) is None
                    &&& resolves(list@, self@, names_of(names@))
                },
                Err(e) => {
                    &&& first_missing(self@, names_of(names@), names@.len() as int) is Some
                    &&& e@ == ConfigErrorSpec::UnknownColorName(
                        first_missing(self@, names_of(names@), names@.len() as int)->0,
                    )
                },
            },
    {
        let ghost texts = names_of(names@);
        let mut list: Vec<Color<'a>> = Vec::new();
        let mut i: usize = 0;
        while i < names.len()
            invariant
                i <= names@.len(),
                texts == names_of(names@),
                first_missing(self@, texts, i as int) is None,
                list@.len() == i,
                forall|k: int|
                    0 <= k < i ==> self@.contains_key(#[trigger] texts[k]) && list@[k]@
                        == self@[texts[k]],
            decreases names@.len() - i,
        {
            let name = names[i];
            match self.get(name) {
                Some(color) => {
                    list.push(*color);
                },
                None => {
                    proof {
                        lemma_missing_persists(self@, texts, i + 1, names@.len() as int);
                    }
                    return Err(ConfigError::UnknownColorName(String::from_str(name)));
                },
            }
            i += 1;
        }
        Ok(list)
    }

    /// Whether a color is called `name`.
    pub fn contains_key(&self, name: &str) -> (present: bool)
        ensures
            present == self@.contains_key(name@),
    {
        match self.find(name) {
            Some(_) => true,
            None => false,
        }
    }

    /// Gives `name` the color `color`, and returns the color it had.
    pub fn insert(&mut self, name: &'a str, color: Color<'a>) -> (previous: Option<Color<'a>>)
        ensures
            final(self)@ == old(self)@.insert(name@, color@),
            match previous {
                Some(c) => old(self)@.contains_key(name@) && c@ == old(self)@[name@],
                None => !old(self)@.contains_key(name@),
            },
    {
        proof {
            use_type_invariant(&*self);
        }
        let found = self.find(name);
        let mut entries = Vec::new();
        std::mem::swap(&mut entries, &mut self.entries);
        let ghost before = entries@;
        let previous = match found {
            Some(i) => {
                let c = entries[i].color;
                entries.set(i, Entry { name, color });
                Some(c)
            },
            None => {
                entries.push(Entry { name, color });
                None
            },
        };
        proof {
            let after = entries@;
            assert forall|k: Seq<char>| holds(after, k) <==> (k == name@ || holds(before, k)) by {
                if holds(before, k) {
                    let i = position(before, k);
                    assert(after[i].name@ == k);
                }
                if k == name@ && found is None {
                    assert(after[after.len() - 1].name@ == k);
                }
            }
        }
        self.entries = entries;
        previous
    }

    /// The names of the colors, in ascending order.
    pub fn sorted_names(&self) -> (names: Vec<&'a str>)
        ensures
            names_of(names@) == sorted_names(self@),
            lists_in_order(sorted_names(self@), self@.dom()),
    {
        proof {
            use_type_invariant(self);
        }
        let mut names: Vec<&'a str> = Vec::new();
        let mut i: usize = 0;
        while i < self.entries.len()
            invariant
                i <= self.entries@.len(),
                names_distinct(self.entries@),
                strictly_sorted(names_of(names@)),
                forall|k: Seq<char>|
                    names_of(names@).contains(k) <==> holds(self.entries@.take(i as int), k),
            decreases self.entries@.len() - i,
        {
            let name = self.entries[i].name;
            proof {
                assert(!holds(self.entries@.take(i as int), name@));
                lemma_holds_next(self.entries@, i as int);
            }
            insert_in_order(&mut names, name);
            i += 1;
        }
        proof {
            assert(self.entries@.take(i as int) =~= self.entries@);
            assert(lists_in_order(names_of(names@), self@.dom()));
            lemma_listing_unique(names_of(names@), sorted_names(self@), self@.dom());
        }
        names
    }
}

/// `colors` with one more color.
pub open spec fn with_color(
    colors: Colors,
    name: &str,
    gui: ColorCode<&str>,
    cterm: ColorCode<u8>,
) -> Colors {
    colors.insert(name@, ColorSpec { gui: gui_spec(gui), cterm })
}

/// The colors of the palette that the themes are made from.
pub open spec fn default_colors() -> Colors {
    let colors = Map::<Seq<char>, ColorSpec>::empty();
    let colors = with_color(colors, "bg", ColorCode::Contrast("#132132", "#334152"), ColorCode::Normal(233));
    let colors = with_color(colors, "bgweaker", ColorCode::Contrast("#213243", "#3a4b5c"), ColorCode::Normal(235));
    let colors = with_color(colors, "bgemphasis", ColorCode::Normal("#3a4b5c"), ColorCode::Normal(235));
    let colors = with_color(colors, "bglight", ColorCode::Normal("#435060"), ColorCode::Normal(236));
    let colors = with_color(colors, "bgstrong", ColorCode::Normal("#536273"), ColorCode::Normal(238));
    let colors = with_color(colors, "light", ColorCode::Normal("#646f7c"), ColorCode::Normal(60));
    let colors = with_color(colors, "fg", ColorCode::Normal("#fffeeb"), ColorCode::Contrast(231, 230));
    let colors = with_color(colors, "hiddenfg", ColorCode::Normal("#607080"), ColorCode::Normal(60));
    let colors = with_color(colors, "weakfg", ColorCode::Normal("#8d9eb2"), ColorCode::Normal(103));
    let colors = with_color(colors, "weakerfg", ColorCode::Normal("#788898"), ColorCode::Normal(102));
    let colors = with_color(colors, "black", ColorCode::Normal("#111e25"), ColorCode::Normal(233));
    let colors = with_color(colors, "gray", ColorCode::Normal("#545f6e"), ColorCode::Normal(59));
    let colors = with_color(colors, "white", ColorCode::Normal("#ffffff"), ColorCode::Normal(231));
    let colors = with_color(colors, "nasu", ColorCode::Normal("#605779"), ColorCode::Normal(61));
    let colors = with_color(colors, "fuchsia", ColorCode::Normal("#b9a5cf"), ColorCode::Normal(183));
    let colors = with_color(colors, "purple", ColorCode::Normal("#e7d5ff"), ColorCode::Normal(189));
    let colors = with_color(colors, "yaezakura", ColorCode::Normal("#70495d"), ColorCode::Normal(95));
    let colors = with_color(colors, "sakura", ColorCode::Normal("#a9667a"), ColorCode::Normal(132));
    let colors = with_color(colors, "kakezakura", ColorCode::Normal("#e996aa"), ColorCode::Normal(175));
    let colors = with_color(colors, "palepink", ColorCode::Normal("#e7c6b7"), ColorCode::Normal(181));
    let colors = with_color(colors, "mikan", ColorCode::Normal("#fb8965"), ColorCode::Normal(209));
    let colors = with_color(colors, "orange", ColorCode::Normal("#f0aa8a"), ColorCode::Normal(216));
    let colors = with_color(colors, "darkgreen", ColorCode::Normal("#5f8770"), ColorCode::Normal(65));
    let colors = with_color(colors, "green", ColorCode::Normal("#a9dd9d"), ColorCode::Normal(150));
    let colors = with_color(colors, "lime", ColorCode::Normal("#c9fd88"), ColorCode::Normal(149));
    let colors = with_color(colors, "blue", ColorCode::Normal("#7098e6"), ColorCode::Normal(69));
    let colors = with_color(colors, "paleblue", ColorCode::Normal("#98b8e6"), ColorCode::Normal(111));
    let colors = with_color(colors, "cloudy", ColorCode::Normal("#90aecb"), ColorCode::Normal(75));
    let colors = with_color(colors, "skyblue", ColorCode::Normal("#a8d2eb"), ColorCode::Normal(153));
    let colors = with_color(colors, "sunny", ColorCode::Normal("#b8e2fb"), ColorCode::Normal(195));
    let colors = with_color(colors, "yellow", ColorCode::Normal("#f0eaaa"), ColorCode::Normal(229));
    let colors = with_color(colors, "gold", ColorCode::Normal("#fedf81"), ColorCode::Normal(222));
    let colors = with_color(colors, "dullgold", ColorCode::Normal("#b6955b"), ColorCode::Normal(221));
    let colors = with_color(colors, "darkgold", ColorCode::Contrast("#484000", "#685800"), ColorCode::Normal(58));
    let colors = with_color(colors, "mildred", ColorCode::Normal("#ab6560"), ColorCode::Normal(167));
    let colors = with_color(colors, "red", ColorCode::Normal("#fd8489"), ColorCode::Normal(210));
    let colors = with_color(colors, "crimson", ColorCode::Normal("#ff6a6f"), ColorCode::Normal(203));
    let colors = with_color(colors, "darkblue", ColorCode::Normal("#00091e"), ColorCode::Normal(235));
    let colors = with_color(colors, "whitepink", ColorCode::Normal("#ebeadb"), ColorCode::Normal(224));
    let colors = with_color(colors, "whitegreen", ColorCode::Normal("#eaf0aa"), ColorCode::Normal(194));
    let colors = with_color(colors, "whiteblue", ColorCode::Normal("#d8e2f0"), ColorCode::Normal(195));
    let colors = with_color(colors, "whitered", ColorCode::Normal("#ffbfaf"), ColorCode::Normal(217));
    let colors = with_color(colors, "inu", ColorCode::Normal("#ddbc96"), ColorCode::Normal(180));
    colors
}

impl<'a> Default for Palette<'a> {
    /// The palette that the themes are made from.
    fn default() -> (palette: Self)
        ensures
            palette@ == default_colors(),
    {
        let mut palette = Palette::new();
        palette.insert("bg", Color { gui: ColorCode::Contrast("#132132", "#334152"), cterm: ColorCode::Normal(233) });
        palette.insert("bgweaker", Color { gui: ColorCode::Contrast("#213243", "#3a4b5c"), cterm: ColorCode::Normal(235) });
        palette.insert("bgemphasis", Color { gui: ColorCode::Normal("#3a4b5c"), cterm: ColorCode::Normal(235) });
        palette.insert("bglight", Color { gui: ColorCode::Normal("#435060"), cterm: ColorCode::Normal(236) });
        palette.insert("bgstrong", Color { gui: ColorCode::Normal("#536273"), cterm: ColorCode::Normal(238) });
        palette.insert("light", Color { gui: ColorCode::Normal("#646f7c"), cterm: ColorCode::Normal(60) });
        palette.insert("fg", Color { gui: ColorCode::Normal("#fffeeb"), cterm: ColorCode::Contrast(231, 230) });
        palette.insert("hiddenfg", Color { gui: ColorCode::Normal("#607080"), cterm: ColorCode::Normal(60) });
        palette.insert("weakfg", Color { gui: ColorCode::Normal("#8d9eb2"), cterm: ColorCode::Normal(103) });
        palette.insert("weakerfg", Color { gui: ColorCode::Normal("#788898"), cterm: ColorCode::Normal(102) });
        palette.insert("black", Color { gui: ColorCode::Normal("#111e25"), cterm: ColorCode::Normal(233) });
        palette.insert("gray", Color { gui: ColorCode::Normal("#545f6e"), cterm: ColorCode::Normal(59) });
        palette.insert("white", Color { gui: ColorCode::Normal("#ffffff"), cterm: ColorCode::Normal(231) });
        palette.insert("nasu", Color { gui: ColorCode::Normal("#605779"), cterm: ColorCode::Normal(61) });
        palette.insert("fuchsia", Color { gui: ColorCode::Normal("#b9a5cf"), cterm: ColorCode::Normal(183) });
        palette.insert("purple", Color { gui: ColorCode::Normal("#e7d5ff"), cterm: ColorCode::Normal(189) });
        palette.insert("yaezakura", Color { gui: ColorCode::Normal("#70495d"), cterm: ColorCode::Normal(95) });
        palette.insert("sakura", Color { gui: ColorCode::Normal("#a9667a"), cterm: ColorCode::Normal(132) });
        palette.insert("kakezakura", Color { gui: ColorCode::Normal("#e996aa"), cterm: ColorCode::Normal(175) });
        palette.insert("palepink", Color { gui: ColorCode::Normal("#e7c6b7"), cterm: ColorCode::Normal(181) });
        palette.insert("mikan", Color { gui: ColorCode::Normal("#fb8965"), cterm: ColorCode::Normal(209) });
        palette.insert("orange", Color { gui: ColorCode::Normal("#f0aa8a"), cterm: ColorCode::Normal(216) });
        palette.insert("darkgreen", Color { gui: ColorCode::Normal("#5f8770"), cterm: ColorCode::Normal(65) });
        palette.insert("green", Color { gui: ColorCode::Normal("#a9dd9d"), cterm: ColorCode::Normal(150) });
        palette.insert("lime", Color { gui: ColorCode::Normal("#c9fd88"), cterm: ColorCode::Normal(149) });
        palette.insert("blue", Color { gui: ColorCode::Normal("#7098e6"), cterm: ColorCode::Normal(69) });
        palette.insert("paleblue", Color { gui: ColorCode::Normal("#98b8e6"), cterm: ColorCode::Normal(111) });
        palette.insert("cloudy", Color { gui: ColorCode::Normal("#90aecb"), cterm: ColorCode::Normal(75) });
        palette.insert("skyblue", Color { gui: ColorCode::Normal("#a8d2eb"), cterm: ColorCode::Normal(153) });
        palette.insert("sunny", Color { gui: ColorCode::Normal("#b8e2fb"), cterm: ColorCode::Normal(195) });
        palette.insert("yellow", Color { gui: ColorCode::Normal("#f0eaaa"), cterm: ColorCode::Normal(229) });
        palette.insert("gold", Color { gui: ColorCode::Normal("#fedf81"), cterm: ColorCode::Normal(222) });
        palette.insert("dullgold", Color { gui: ColorCode::Normal("#b6955b"), cterm: ColorCode::Normal(221) });
        palette.insert("darkgold", Color { gui: ColorCode::Contrast("#484000", "#685800"), cterm: ColorCode::Normal(58) });
        palette.insert("mildred", Color { gui: ColorCode::Normal("#ab6560"), cterm: ColorCode::Normal(167) });
        palette.insert("red", Color { gui: ColorCode::Normal("#fd8489"), cterm: ColorCode::Normal(210) });
        palette.insert("crimson", Color { gui: ColorCode::Normal("#ff6a6f"), cterm: ColorCode::Normal(203) });
        palette.insert("darkblue", Color { gui: ColorCode::Normal("#00091e"), cterm: ColorCode::Normal(235) });
        palette.insert("whitepink", Color { gui: ColorCode::Normal("#ebeadb"), cterm: ColorCode::Normal(224) });
        palette.insert("whitegreen", Color { gui: ColorCode::Normal("#eaf0aa"), cterm: ColorCode::Normal(194) });
        palette.insert("whiteblue", Color { gui: ColorCode::Normal("#d8e2f0"), cterm: ColorCode::Normal(195) });
        palette.insert("whitered", Color { gui: ColorCode::Normal("#ffbfaf"), cterm: ColorCode::Normal(217) });
        palette.insert("inu", Color { gui: ColorCode::Normal("#ddbc96"), cterm: ColorCode::Normal(180) });
        palette
    }
}

} // verus!
