use crate::error::StringifyResult;
use crate::styles::{Style, Styles};
use crate::stringify::{deeper, role_end, role_start, Stringify};
use crate::text::{indent_text, push_indent};
use vstd::prelude::*;

verus! {

/// The entries of a sequence: for each item, the indentation of `item_style`,
/// the item's text and a comma; or the first role that an item misses.
pub open spec fn items_text<T: Stringify>(
    items: Seq<T>,
    styles: Map<Seq<char>, Style>,
    item_style: Style,
) -> Result<Seq<char>, Seq<char>>
    decreases items.len(),
{
    if items.len() == 0 {
        Ok(Seq::empty())
    } else {
        match items_text(items.drop_last(), styles, item_style) {
            Err(role) => Err(role),
            Ok(head) => match items.last().rendering(styles) {
                Err(role) => Err(role),
                Ok(text) => Ok(head + indent_text(item_style) + text + ","@),
            },
        }
    }
}

/// Once an item of a prefix misses a role, the whole sequence misses it.
proof fn lemma_items_error_persists<T: Stringify>(
    items: Seq<T>,
    styles: Map<Seq<char>, Style>,
    item_style: Style,
    j: int,
)
    requires
        0 <= j <= items.len(),
        items_text(items.subrange(0, j), styles, item_style) is Err,
    ensures
        items_text(items, styles, item_style) == items_text(items.subrange(0, j), styles, item_style),
    decreases items.len(),
{
    if j < items.len() {
        assert(items.drop_last().subrange(0, j) =~= items.subrange(0, j));
        lemma_items_error_persists(items.drop_last(), styles, item_style, j);
    } else {
        assert(items.subrange(0, j) =~= items);
    }
}

impl<T: Stringify> Stringify for Vec<T> {
    /// `Vec []` when empty. Otherwise the `"start"` indentation and `Vec [`, each
    /// item after the indentation of `"end"` one level deeper and followed by a
    /// comma, then the `"end"` indentation and `]`. Items get the same table.
    open spec fn rendering(&self, styles: Map<Seq<char>, Style>) -> Result<Seq<char>, Seq<char>> {
        if self@.len() == 0 {
            Ok("Vec []"@)
        } else if !styles.contains_key(role_end()) {
            Err(role_end())
        } else if !styles.contains_key(role_start()) {
            Err(role_start())
        } else {
            let end = styles[role_end()];
            match items_text(self@, styles, deeper(end)) {
                Err(role) => Err(role),
                Ok(body) => Ok(indent_text(styles[role_start()]) + "Vec ["@ + body + indent_text(end) + "]"@),
            }
        }
    }

    open spec fn renderable(&self) -> bool {
        forall|i: int| 0 <= i < self@.len() ==> #[trigger] self@[i].renderable()
    }

    fn stringify(&self, buf: &mut String, styles: &Styles) -> (r: StringifyResult<()>) {
        if self.len() == 0 {
            buf.append("Vec []");
            return Ok(());
        }
        let end = match styles.get("end") {
            Ok(s) => s,
            Err(e) => return Err(e),
        };
        let start = match styles.get("start") {
            Ok(s) => s,
            Err(e) => return Err(e),
        };
        let ghost before = buf@;
        push_indent(buf, start);
        buf.append("Vec [");
        let ghost head = buf@;
        let item_style = end.add(1);
        assert(item_style == deeper(end));
        let mut i: usize = 0;
        while i < self.len()
            invariant
                i <= self@.len(),
                self.renderable(),
                styles@.contains_key(role_end()),
                styles@.contains_key(role_start()),
                end == styles@[role_end()],
                start == styles@[role_start()],
                head == before + indent_text(start) + "Vec ["@,
                item_style == deeper(end),
                items_text(self@.subrange(0, i as int), styles@, item_style) matches Ok(body)
                    && buf@ == head + body,
            decreases self@.len() - i,
        {
            let ghost body = items_text(self@.subrange(0, i as int), styles@, item_style)->Ok_0;
            assert(self@.subrange(0, i + 1).drop_last() =~= self@.subrange(0, i as int));
            assert(self@.subrange(0, i + 1).last() == self@[i as int]);
            push_indent(buf, item_style);
            let ghost mid = buf@;
            match self[i].stringify(buf, styles) {
                Ok(()) => {},
                Err(e) => {
                    proof {
                        assert(items_text(self@.subrange(0, i + 1), styles@, item_style)
                            == self@[i as int].rendering(styles@));
                        lemma_items_error_persists(self@, styles@, item_style, i + 1);
                    }
                    return Err(e);
                },
            }
            buf.append(",");
            proof {
                let text = self@[i as int].rendering(styles@)->Ok_0;
                assert(buf@ =~= head + (body + indent_text(item_style) + text + ","@));
            }
            i = i + 1;
        }
        assert(self@.subrange(0, i as int) =~= self@);
        push_indent(buf, end);
        buf.append("]");
        proof {
            let body = items_text(self@, styles@, item_style)->Ok_0;
            assert(buf@ =~= before + (indent_text(start) + "Vec ["@ + body + indent_text(end) + "]"@));
        }
        Ok(())
    }
}

} // verus!
