use crate::error::StringifyResult;
use crate::styles::{level_plus, Newline, Style, Styles};
use crate::stringify::{role_end, role_key, role_start, role_value, Stringify};
use crate::text::{indent_text, push_indent};
use std::collections::{BTreeMap, HashMap};
use vstd::prelude::*;
use vstd::std_specs::btree::{into_iter, key_obeys_cmp_spec, spec_btree_map_iter};
use vstd::std_specs::hash::{obeys_key_model, spec_hash_map_iter};
use vstd::std_specs::iter::IteratorSpec;

verus! {

broadcast use vstd::std_specs::btree::group_btree_axioms, vstd::std_specs::hash::group_hash_axioms;

/// The style that a map at `level` hands to its keys and values: a line break,
/// one level deeper, the four-space unit.
pub open spec fn entry_style(level: usize) -> Style {
    Style::spec_standard(Newline::Add, level_plus(level, 1))
}

/// One entry of a map at `level`: the key rendered with a table that binds only
/// `"key"`, ` : `, the value rendered with a table that binds only `"value"`, and
/// a comma; or the first role that the key or the value misses.
pub open spec fn entry_text<K: Stringify, V: Stringify>(key: K, value: V, level: usize) -> Result<
    Seq<char>,
    Seq<char>,
> {
    match key.rendering(Map::empty().insert(role_key(), entry_style(level))) {
        Err(role) => Err(role),
        Ok(k) => match value.rendering(Map::empty().insert(role_value(), entry_style(level))) {
            Err(role) => Err(role),
            Ok(v) => Ok(k + " : "@ + v + ","@),
        },
    }
}

/// The entries of a map at `level`, in the given order.
pub open spec fn entries_text<K: Stringify, V: Stringify>(entries: Seq<(K, V)>, level: usize) -> Result<
    Seq<char>,
    Seq<char>,
>
    decreases entries.len(),
{
    if entries.len() == 0 {
        Ok(Seq::empty())
    } else {
        match entries_text(entries.drop_last(), level) {
            Err(role) => Err(role),
            Ok(head) => match entry_text(entries.last().0, entries.last().1, level) {
                Err(role) => Err(role),
                Ok(text) => Ok(head + text),
            },
        }
    }
}

/// A whole map that is not empty: the `"start"` indentation and `label {`, the
/// entries, then a line break, the `"end"` level plus one in four-space units,
/// and `}`. `"start"` is read first, `"end"` after the entries.
pub open spec fn map_text<K: Stringify, V: Stringify>(
    label: Seq<char>,
    entries: Seq<(K, V)>,
    styles: Map<Seq<char>, Style>,
) -> Result<Seq<char>, Seq<char>> {
    if !styles.contains_key(role_start()) {
        Err(role_start())
    } else {
        let start = styles[role_start()];
        match entries_text(entries, start.indent_level) {
            Err(role) => Err(role),
            Ok(body) => if !styles.contains_key(role_end()) {
                Err(role_end())
            } else {
                Ok(indent_text(start) + label + " {"@ + body + indent_text(
                    entry_style(styles[role_end()].indent_level),
                ) + "}"@)
            },
        }
    }
}

/// Once an entry of a prefix misses a role, the whole sequence misses it.
proof fn lemma_entries_error_persists<K: Stringify, V: Stringify>(
    entries: Seq<(K, V)>,
    level: usize,
    j: int,
)
    requires
        0 <= j <= entries.len(),
        entries_text(entries.subrange(0, j), level) is Err,
    ensures
        entries_text(entries, level) == entries_text(entries.subrange(0, j), level),
    decreases entries.len(),
{
    if j < entries.len() {
        assert(entries.drop_last().subrange(0, j) =~= entries.subrange(0, j));
        lemma_entries_error_persists(entries.drop_last(), level, j);
    } else {
        assert(entries.subrange(0, j) =~= entries);
    }
}

/// The entries of an ordered map, in the order of its keys.
pub open spec fn btree_entries<K, V>(m: &BTreeMap<K, V>) -> Seq<(K, V)> {
    into_iter(spec_btree_map_iter(m))
}

/// The entries of a hashed map, in the order in which its storage holds them:
/// an order that two maps with equal contents need not share.
pub open spec fn hash_entries<K, V>(m: &HashMap<K, V>) -> Seq<(K, V)> {
    vstd::std_specs::hash::into_iter(spec_hash_map_iter(m))
}

impl<K: Stringify, V: Stringify> Stringify for BTreeMap<K, V> {
    /// `BTreeMap {}` when empty, with no role read; otherwise the map's entries
    /// in the order of their keys.
    open spec fn rendering(&self, styles: Map<Seq<char>, Style>) -> Result<Seq<char>, Seq<char>> {
        if self@.is_empty() {
            Ok("BTreeMap {}"@)
        } else {
            map_text("BTreeMap"@, btree_entries(self), styles)
        }
    }

    open spec fn renderable(&self) -> bool {
        &&& key_obeys_cmp_spec::<K>()
        &&& forall|k: K| #[trigger] self@.contains_key(k) ==> k.renderable() && self@[k].renderable()
    }

    fn stringify(&self, buf: &mut String, styles: &Styles) -> (r: StringifyResult<()>) {
        if self.is_empty() {
            buf.append("BTreeMap {}");
            return Ok(());
        }
        let start = match styles.get("start") {
            Ok(s) => s,
            Err(e) => return Err(e),
        };
        let ghost before = buf@;
        push_indent(buf, start);
        buf.append("BTreeMap {");
        let ghost head = buf@;
        let child = Style::standard(Newline::Add, start.indent_level.saturating_add(1));
        let key_styles = Styles::single("key", child);
        let value_styles = Styles::single("value", child);
        let ghost entries = btree_entries(self);
        let iter = self.iter();
        assert(iter.remaining().unref() == entries);
        assert forall|j: int| 0 <= j < entries.len() implies #[trigger] self@.contains_key(entries[j].0)
            && self@[entries[j].0] == entries[j].1 by {
            assert(self@.contains_key(*iter.remaining()[j].0));
        }
        for (key, value) in it: iter
            invariant
                self.renderable(),
                !self@.is_empty(),
                entries == btree_entries(self),
                styles@.contains_key(role_start()),
                start == styles@[role_start()],
                child == entry_style(start.indent_level),
                key_styles@ == Map::empty().insert(role_key(), child),
                value_styles@ == Map::empty().insert(role_value(), child),
                head == before + indent_text(start) + "BTreeMap {"@,
                it.seq().unref() == entries,
                forall|j: int|
                    0 <= j < entries.len() ==> #[trigger] self@.contains_key(entries[j].0)
                        && self@[entries[j].0] == entries[j].1,
                entries_text(entries.subrange(0, it.index()), start.indent_level) matches Ok(body)
                    && buf@ == head + body,
        {
            let ghost i = it.index();
            let ghost body = entries_text(entries.subrange(0, i), start.indent_level)->Ok_0;
            assert(entries.subrange(0, i + 1).drop_last() =~= entries.subrange(0, i));
            assert(it.seq()[i].0 == key);
            assert(it.seq()[i].1 == value);
            assert(self@.contains_key(*key));
            assert(entries[i] == (*key, *value));
            assert(entries.subrange(0, i + 1).last() == entries[i]);
            match key.stringify(buf, &key_styles) {
                Ok(()) => {},
                Err(e) => {
                    proof {
                        assert(key.rendering(key_styles@) is Err);
                        assert(entry_text(*key, *value, start.indent_level) is Err);
                        assert(entries_text(entries.subrange(0, i + 1), start.indent_level) is Err);
                        lemma_entries_error_persists(entries, start.indent_level, i + 1);
                    }
                    return Err(e);
                },
            }
            let ghost after_key = buf@;
            buf.append(" : ");
            match value.stringify(buf, &value_styles) {
                Ok(()) => {},
                Err(e) => {
                    proof {
                        assert(value.rendering(value_styles@) is Err);
                        assert(entry_text(*key, *value, start.indent_level) is Err);
                        assert(entries_text(entries.subrange(0, i + 1), start.indent_level) is Err);
                        lemma_entries_error_persists(entries, start.indent_level, i + 1);
                    }
                    return Err(e);
                },
            }
            buf.append(",");
            proof {
                let text = entry_text(*key, *value, start.indent_level)->Ok_0;
                assert(buf@ =~= head + (body + text));
            }
        }
        assert(entries.subrange(0, entries.len() as int) =~= entries);
        let end = match styles.get("end") {
            Ok(s) => s,
            Err(e) => return Err(e),
        };
        let close = Style::standard(Newline::Add, end.indent_level.saturating_add(1));
        push_indent(buf, close);
        buf.append("}");
        proof {
            reveal_strlit("BTreeMap {");
            reveal_strlit("BTreeMap");
            reveal_strlit(" {");
            let body = entries_text(entries, start.indent_level)->Ok_0;
            assert(buf@ =~= before + (indent_text(start) + "BTreeMap"@ + " {"@ + body + indent_text(close) + "}"@));
        }
        Ok(())
    }
}

impl<K: Stringify, V: Stringify> Stringify for HashMap<K, V> {
    /// `HashMap {}` when empty, with no role read; otherwise the map's entries
    /// in the order in which its storage holds them.
    open spec fn rendering(&self, styles: Map<Seq<char>, Style>) -> Result<Seq<char>, Seq<char>> {
        if self@.is_empty() {
            Ok("HashMap {}"@)
        } else {
            map_text("HashMap"@, hash_entries(self), styles)
        }
    }

    open spec fn renderable(&self) -> bool {
        &&& obeys_key_model::<K>()
        &&& forall|k: K| #[trigger] self@.contains_key(k) ==> k.renderable() && self@[k].renderable()
    }

    fn stringify(&self, buf: &mut String, styles: &Styles) -> (r: StringifyResult<()>) {
        if self.is_empty() {
            buf.append("HashMap {}");
            return Ok(());
        }
        let start = match styles.get("start") {
            Ok(s) => s,
            Err(e) => return Err(e),
        };
        let ghost before = buf@;
        push_indent(buf, start);
        buf.append("HashMap {");
        let ghost head = buf@;
        let child = Style::standard(Newline::Add, start.indent_level.saturating_add(1));
        let key_styles = Styles::single("key", child);
        let value_styles = Styles::single("value", child);
        let ghost entries = hash_entries(self);
        let iter = self.iter();
        assert(iter.remaining().unref() == entries);
        assert forall|j: int| 0 <= j < entries.len() implies #[trigger] self@.contains_key(entries[j].0)
            && self@[entries[j].0] == entries[j].1 by {
            assert(self@.contains_key(*iter.remaining()[j].0));
        }
        for (key, value) in it: iter
            invariant
                self.renderable(),
                !self@.is_empty(),
                entries == hash_entries(self),
                styles@.contains_key(role_start()),
                start == styles@[role_start()],
                child == entry_style(start.indent_level),
                key_styles@ == Map::empty().insert(role_key(), child),
                value_styles@ == Map::empty().insert(role_value(), child),
                head == before + indent_text(start) + "HashMap {"@,
                it.seq().unref() == entries,
                forall|j: int|
                    0 <= j < entries.len() ==> #[trigger] self@.contains_key(entries[j].0)
                        && self@[entries[j].0] == entries[j].1,
                entries_text(entries.subrange(0, it.index()), start.indent_level) matches Ok(body)
                    && buf@ == head + body,
        {
            let ghost i = it.index();
            let ghost body = entries_text(entries.subrange(0, i), start.indent_level)->Ok_0;
            assert(entries.subrange(0, i + 1).drop_last() =~= entries.subrange(0, i));
            assert(it.seq()[i].0 == key);
            assert(it.seq()[i].1 == value);
            assert(self@.contains_key(*key));
            assert(entries[i] == (*key, *value));
            assert(entries.subrange(0, i + 1).last() == entries[i]);
            match key.stringify(buf, &key_styles) {
                Ok(()) => {},
                Err(e) => {
                    proof {
                        assert(key.rendering(key_styles@) is Err);
                        assert(entry_text(*key, *value, start.indent_level) is Err);
                        assert(entries_text(entries.subrange(0, i + 1), start.indent_level) is Err);
                        lemma_entries_error_persists(entries, start.indent_level, i + 1);
                    }
                    return Err(e);
                },
            }
            let ghost after_key = buf@;
            buf.append(" : ");
            match value.stringify(buf, &value_styles) {
                Ok(()) => {},
                Err(e) => {
                    proof {
                        assert(value.rendering(value_styles@) is Err);
                        assert(entry_text(*key, *value, start.indent_level) is Err);
                        assert(entries_text(entries.subrange(0, i + 1), start.indent_level) is Err);
                        lemma_entries_error_persists(entries, start.indent_level, i + 1);
                    }
                    return Err(e);
                },
            }
            buf.append(",");
            proof {
                let text = entry_text(*key, *value, start.indent_level)->Ok_0;
                assert(buf@ =~= head + (body + text));
            }
        }
        assert(entries.subrange(0, entries.len() as int) =~= entries);
        let end = match styles.get("end") {
            Ok(s) => s,
            Err(e) => return Err(e),
        };
        let close = Style::standard(Newline::Add, end.indent_level.saturating_add(1));
        push_indent(buf, close);
        buf.append("}");
        proof {
            reveal_strlit("HashMap {");
            reveal_strlit("HashMap");
            reveal_strlit(" {");
            let body = entries_text(entries, start.indent_level)->Ok_0;
            assert(buf@ =~= before + (indent_text(start) + "HashMap"@ + " {"@ + body + indent_text(close) + "}"@));
        }
        Ok(())
    }
}

} // verus!
