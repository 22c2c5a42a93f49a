use crate::containers::items_text;
use crate::stringify::{deeper, gave, role_end, role_start, wrote, Stringify};
use crate::styles::{Newline, Style};
use crate::text::{decimal, indent_text, repeat};
use std::collections::{BTreeMap, HashMap};
use vstd::prelude::*;

verus! {

/// An empty sequence or map renders as its bare label and brackets, whatever the
/// table holds: no indentation is written and no role is read, so even an empty
/// table succeeds.
pub proof fn lemma_empty_containers<T: Stringify, K: Stringify, V: Stringify>(
    seq: Vec<T>,
    ordered: BTreeMap<K, V>,
    hashed: HashMap<K, V>,
    styles: Map<Seq<char>, Style>,
)
    requires
        seq@.len() == 0,
        ordered@.is_empty(),
        hashed@.is_empty(),
    ensures
        seq.rendering(styles) == Ok::<Seq<char>, Seq<char>>("Vec []"@),
        ordered.rendering(styles) == Ok::<Seq<char>, Seq<char>>("BTreeMap {}"@),
        hashed.rendering(styles) == Ok::<Seq<char>, Seq<char>>("HashMap {}"@),
{
}

/// Rendering is deterministic: two renderings of one value with one table, into
/// buffers that held the same text, succeed or fail together and leave the same
/// text behind.
pub proof fn lemma_render_deterministic<T: Stringify>(
    value: T,
    styles: Map<Seq<char>, Style>,
    before: Seq<char>,
    after1: Seq<char>,
    r1: Result<(), crate::error::StringifyError>,
    after2: Seq<char>,
    r2: Result<(), crate::error::StringifyError>,
)
    requires
        wrote(value.rendering(styles), before, after1, r1),
        wrote(value.rendering(styles), before, after2, r2),
    ensures
        r1 is Ok <==> r2 is Ok,
        r1 is Ok ==> after1 == after2,
{
}

/// The allocating form is deterministic too: two renderings of one value with
/// one table give the same string, or fail together.
pub proof fn lemma_render_new_deterministic<T: Stringify>(
    value: T,
    styles: Map<Seq<char>, Style>,
    r1: Result<String, crate::error::StringifyError>,
    r2: Result<String, crate::error::StringifyError>,
)
    requires
        gave(value.rendering(styles), r1),
        gave(value.rendering(styles), r2),
    ensures
        r1 is Ok <==> r2 is Ok,
        r1 is Ok ==> r1->Ok_0@ == r2->Ok_0@,
{
}

/// The line break that `style` puts before its indentation, if any.
pub open spec fn line_head(style: Style) -> Seq<char> {
    if style.newline == Newline::Add {
        seq!['\n']
    } else {
        Seq::empty()
    }
}

/// Numbers as a sequence whose `"end"` style is `end` lays them out when `end`
/// sits at level zero: each one after `end`'s line break and a single unit.
pub open spec fn leaf_lines(items: Seq<u64>, end: Style) -> Seq<char>
    decreases items.len(),
{
    if items.len() == 0 {
        Seq::empty()
    } else {
        leaf_lines(items.drop_last(), end) + line_head(end) + end.indent@ + decimal(
            items.last() as nat,
        ) + ","@
    }
}

proof fn lemma_leaf_lines(items: Seq<u64>, styles: Map<Seq<char>, Style>, end: Style)
    requires
        end.indent_level == 0,
    ensures
        items_text(items, styles, deeper(end)) == Ok::<Seq<char>, Seq<char>>(leaf_lines(items, end)),
    decreases items.len(),
{
    if items.len() > 0 {
        lemma_leaf_lines(items.drop_last(), styles, end);
        assert(repeat(end.indent@, 1) =~= end.indent@) by {
            assert(repeat(end.indent@, 0) =~= Seq::<char>::empty());
        }
        assert(indent_text(deeper(end)) =~= line_head(end) + end.indent@);
        let head = leaf_lines(items.drop_last(), end);
        let leaf = decimal(items.last() as nat);
        assert(head + indent_text(deeper(end)) + leaf + ","@ =~= head + line_head(end) + end.indent@
            + leaf + ","@);
    }
}

/// In a sequence of numbers whose table puts `"end"` at level zero, every number
/// is preceded by exactly one indentation unit, one per level of nesting; a
/// number rendered on its own is preceded by none.
pub proof fn lemma_leaf_indentation(items: Vec<u64>, leaf: u64, styles: Map<Seq<char>, Style>)
    requires
        items@.len() > 0,
        styles.contains_key(role_start()),
        styles.contains_key(role_end()),
        styles[role_end()].indent_level == 0,
    ensures
        items.rendering(styles) == Ok::<Seq<char>, Seq<char>>(indent_text(styles[role_start()])
            + "Vec ["@ + leaf_lines(items@, styles[role_end()]) + indent_text(styles[role_end()])
            + "]"@),
        leaf.rendering(styles) == Ok::<Seq<char>, Seq<char>>(decimal(leaf as nat)),
{
    lemma_leaf_lines(items@, styles, styles[role_end()]);
}

} // verus!
