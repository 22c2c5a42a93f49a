use crate::error::{StringifyError, StringifyResult};
use vstd::prelude::*;

verus! {

/// Whether a line break comes before an indentation step.
#[derive(Copy, Clone, Debug, PartialEq, Eq, Structural, PartialOrd, Ord, Hash)]
pub enum Newline {
    Add,
    Omit,
}

/// A layout directive: a newline policy, an indentation depth and the text of one
/// indentation unit.
#[derive(Copy, Clone, Debug, PartialEq, Eq, PartialOrd, Ord, Hash)]
pub struct Style {
    /// The policy for printing a newline.
    pub newline: Newline,
    /// The indentation level.
    pub indent_level: usize,
    /// The text of one indentation unit.
    pub indent: &'static str,
}

/// The indentation unit of a standard style: four spaces.
pub const INDENT: &'static str = "    ";

/// The level after one more step of nesting; it stays at `usize::MAX` once there.
pub open spec fn level_plus(level: usize, n: usize) -> usize {
    if level + n > usize::MAX { usize::MAX } else { (level + n) as usize }
}

/// The level after `n` steps outwards; it stops at zero.
pub open spec fn level_minus(level: usize, n: usize) -> usize {
    if level < n { 0 } else { (level - n) as usize }
}

impl Style {
    pub open spec fn spec_standard(newline: Newline, indent_level: usize) -> Style {
        Style { newline, indent_level, indent: INDENT }
    }

    /// A style with the four-space unit.
    pub fn standard(newline: Newline, indent_level: usize) -> (r: Self)
        ensures
            r == Style::spec_standard(newline, indent_level),
    {
        Self { newline: newline, indent_level: indent_level, indent: INDENT }
    }

    /// A placeholder for a style that the receiver does not read.
    pub fn unused() -> (r: Self)
        ensures
            r == Style::spec_standard(Newline::Omit, 0),
    {
        Self::default()
    }

    /// The same style, deeper by `rhs` levels; the level stays at `usize::MAX`
    /// once it reaches it.
    pub fn add(self, rhs: usize) -> (r: Style)
        ensures
            r == (Style { indent_level: level_plus(self.indent_level, rhs), ..self }),
    {
        Style {
            newline: self.newline,
            indent_level: self.indent_level.saturating_add(rhs),
            indent: self.indent,
        }
    }

    /// The same style with another newline policy.
    pub fn with_newline(&self, newline: Newline) -> (r: Self)
        ensures
            r == (Style { newline, ..*self }),
    {
        Self { newline: newline, indent_level: self.indent_level, indent: self.indent }
    }

    /// The same style at another indentation level.
    pub fn with_indent_level(&self, indent_level: usize) -> (r: Self)
        ensures
            r == (Style { indent_level, ..*self }),
    {
        Self { newline: self.newline, indent_level: indent_level, indent: self.indent }
    }
}

impl Default for Style {
    /// No newline, level zero, the four-space unit.
    fn default() -> (r: Self)
        ensures
            r == Style::spec_standard(Newline::Omit, 0),
    {
        Style { newline: Newline::Omit, indent_level: 0, indent: INDENT }
    }
}

impl std::ops::Sub<usize> for Style {
    type Output = Style;

    /// Shallower by `rhs` levels, stopping at zero.
    fn sub(self, rhs: usize) -> (r: Style)
        ensures
            r == (Style { indent_level: level_minus(self.indent_level, rhs), ..self }),
    {
        Style { newline: self.newline, indent_level: self.indent_level.saturating_sub(rhs), indent: self.indent }
    }
}

impl vstd::std_specs::ops::SubSpecImpl<usize> for Style {
    open spec fn obeys_sub_spec() -> bool {
        true
    }

    open spec fn sub_req(self, rhs: usize) -> bool {
        true
    }

    open spec fn sub_spec(self, rhs: usize) -> Style {
        Style { indent_level: level_minus(self.indent_level, rhs), ..self }
    }
}

impl std::ops::Sub<Style> for Style {
    type Output = Style;

    /// The right operand's level taken from the left's, stopping at zero; newline and
    /// unit of the left operand.
    fn sub(self, rhs: Style) -> (r: Style)
        ensures
            r == (Style { indent_level: level_minus(self.indent_level, rhs.indent_level), ..self }),
    {
        Style {
            newline: self.newline,
            indent_level: self.indent_level.saturating_sub(rhs.indent_level),
            indent: self.indent,
        }
    }
}

impl vstd::std_specs::ops::SubSpecImpl<Style> for Style {
    open spec fn obeys_sub_spec() -> bool {
        true
    }

    open spec fn sub_req(self, rhs: Style) -> bool {
        true
    }

    open spec fn sub_spec(self, rhs: Style) -> Style {
        Style { indent_level: level_minus(self.indent_level, rhs.indent_level), ..self }
    }
}

/// The style bound to `name` by a list of (role, style) pairs: the last pair that
/// names the role wins.
pub open spec fn bound_style(pairs: Seq<(&'static str, Style)>, name: Seq<char>) -> Option<Style>
    decreases pairs.len(),
{
    if pairs.len() == 0 {
        None
    } else if pairs.last().0@ == name {
        Some(pairs.last().1)
    } else {
        bound_style(pairs.drop_last(), name)
    }
}

/// Whether two texts hold the same characters.
pub fn same_text(a: &str, b: &str) -> (r: bool)
    ensures
        r == (a@ == b@),
{
    let n = a.unicode_len();
    if n != b.unicode_len() {
        return false;
    }
    let mut i: usize = 0;
    while i < n
        invariant
            n == a@.len() == b@.len(),
            i <= n,
            forall|j: int| 0 <= j < i ==> a@[j] == b@[j],
        decreases n - i,
    {
        if a.get_char(i) != b.get_char(i) {
            return false;
        }
        i = i + 1;
    }
    assert(a@ =~= b@);
    true
}

/// A table from role names to styles, fixed once built.
pub struct Styles {
    pairs: Vec<(&'static str, Style)>,
}

impl View for Styles {
    type V = Map<Seq<char>, Style>;

    closed spec fn view(&self) -> Map<Seq<char>, Style> {
        Map::new(
            |name: Seq<char>| bound_style(self.pairs@, name) is Some,
            |name: Seq<char>| bound_style(self.pairs@, name).unwrap(),
        )
    }
}

impl Styles {
    /// The table of the given pairs; where a role is named twice, the later pair wins.
    pub fn new(pairs: Vec<(&'static str, Style)>) -> (r: Self)
        ensures
            forall|name: Seq<char>| #[trigger] r@.contains_key(name) <==> bound_style(pairs@, name) is Some,
            forall|name: Seq<char>| r@.contains_key(name) ==> #[trigger] r@[name] == bound_style(pairs@, name).unwrap(),
    {
        Styles { pairs }
    }

    /// The table that binds `name` alone, to `style`.
    pub fn single(name: &'static str, style: Style) -> (r: Self)
        ensures
            r@ == Map::<Seq<char>, Style>::empty().insert(name@, style),
    {
        let pairs = vec![(name, style)];
        let r = Styles { pairs };
        assert(r.pairs@.drop_last() =~= Seq::<(&'static str, Style)>::empty());
        assert forall|n: Seq<char>|
            #[trigger] bound_style(r.pairs@, n) == (if n == name@ {
                Some(style)
            } else {
                None
            }) by {
            assert(r.pairs@.last() == (name, style));
            assert(bound_style(r.pairs@.drop_last(), n) is None);
        }
        assert(r@ =~= Map::<Seq<char>, Style>::empty().insert(name@, style));
        r
    }

    /// The style bound to `name`, or `StyleNotFound` carrying `name`.
    pub fn get(&self, name: &'static str) -> (r: StringifyResult<Style>)
        ensures
            self@.contains_key(name@) ==> (r matches Ok(s) && s == self@[name@]),
            !self@.contains_key(name@) ==> (r matches Err(StringifyError::StyleNotFound { name: n }) && n == name),
    {
        let mut i: usize = self.pairs.len();
        assert(self.pairs@.subrange(0, i as int) =~= self.pairs@);
        while i > 0
            invariant
                i <= self.pairs@.len(),
                bound_style(self.pairs@.subrange(0, i as int), name@) == bound_style(self.pairs@, name@),
            decreases i,
        {
            assert(self.pairs@.subrange(0, i as int).drop_last() =~= self.pairs@.subrange(0, i - 1));
            let (role, style) = self.pairs[i - 1];
            if same_text(role, name) {
                return Ok(style);
            }
            i = i - 1;
        }
        Err(StringifyError::StyleNotFound { name })
    }
}

} // verus!
