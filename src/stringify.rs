use crate::error::{StringifyError, StringifyResult};
use crate::styles::{level_plus, Style, Styles};
use crate::text::{indent_text, push_indent};
use vstd::prelude::*;

verus! {

/// The role of the style placed before a container's opening token.
pub open spec fn role_start() -> Seq<char> {
    "start"@
}

/// The role of the style placed before a container's closing token.
pub open spec fn role_end() -> Seq<char> {
    "end"@
}

/// The role of the style that a map hands to its keys.
pub open spec fn role_key() -> Seq<char> {
    "key"@
}

/// The role of the style that a map hands to its values.
pub open spec fn role_value() -> Seq<char> {
    "value"@
}

/// The role of the style placed before a field's name.
pub open spec fn role_name() -> Seq<char> {
    "name"@
}

/// `style` one level deeper.
pub open spec fn deeper(style: Style) -> Style {
    Style { indent_level: level_plus(style.indent_level, 1), ..style }
}

/// Whether a call that returned `r`, and changed the buffer from `before` to
/// `after`, did what `outcome` says: appended its text, or failed on its role.
pub open spec fn wrote(
    outcome: Result<Seq<char>, Seq<char>>,
    before: Seq<char>,
    after: Seq<char>,
    r: StringifyResult<()>,
) -> bool {
    match outcome {
        Ok(text) => r is Ok && after == before + text,
        Err(role) => r matches Err(StringifyError::StyleNotFound { name }) && name@ == role,
    }
}

/// Whether a call that returned `r` gave what `outcome` says: the text, or the
/// failure on its role.
pub open spec fn gave(outcome: Result<Seq<char>, Seq<char>>, r: StringifyResult<String>) -> bool {
    match outcome {
        Ok(text) => r matches Ok(s) && s@ == text,
        Err(role) => r matches Err(StringifyError::StyleNotFound { name }) && name@ == role,
    }
}

/// A value that renders itself as indented text, reading the layout of its
/// structural roles from a style table.
pub trait Stringify: Sized {
    /// What rendering `self` with a table that binds `styles` appends, or the
    /// first role that the rendering asks for and the table lacks.
    spec fn rendering(&self, styles: Map<Seq<char>, Style>) -> Result<Seq<char>, Seq<char>>;

    /// Whether the collections inside `self` behave as Verus models them: the
    /// keys of an ordered map obey their order's specification, those of a
    /// hashed map their hashing model. Always true of a value without maps.
    spec fn renderable(&self) -> bool;

    /// Appends the text of `self` to `buf`, with the layout that `styles` gives.
    fn stringify(&self, buf: &mut String, styles: &Styles) -> (r: StringifyResult<()>)
        requires
            self.renderable(),
        ensures
            wrote(self.rendering(styles@), old(buf)@, final(buf)@, r),
    ;

    /// The text of `self` in a new string.
    fn stringify_new(&self, styles: &Styles) -> (r: StringifyResult<String>)
        requires
            self.renderable(),
        ensures
            gave(self.rendering(styles@), r),
    {
        let mut buf = String::new();
        match self.stringify(&mut buf, styles) {
            Ok(()) => Ok(buf),
            Err(e) => Err(e),
        }
    }

    /// Appends the text of a value that reads no role, with an empty table.
    fn stringify_primitive(&self, buf: &mut String) -> (r: StringifyResult<()>)
        requires
            self.renderable(),
        ensures
            wrote(self.rendering(Map::empty()), old(buf)@, final(buf)@, r),
    {
        let styles = Styles::new(Vec::new());
        assert(styles@ =~= Map::empty());
        self.stringify(buf, &styles)
    }

    /// The text of a value that reads no role, in a new string.
    fn stringify_primitive_new(&self) -> (r: StringifyResult<String>)
        requires
            self.renderable(),
        ensures
            gave(self.rendering(Map::empty()), r),
    {
        let mut buf = String::new();
        match self.stringify_primitive(&mut buf) {
            Ok(()) => Ok(buf),
            Err(e) => Err(e),
        }
    }

    /// Writes a line break if `style` asks for one, then its unit once per level.
    fn indent(&self, buf: &mut String, style: Style)
        ensures
            final(buf)@ == old(buf)@ + indent_text(style),
    {
        push_indent(buf, style)
    }
}

/// What the field helper appends for `name` and `value`: the indentation of the
/// `"name"` role, the name, `=` and the value's text; or the role it misses.
pub open spec fn field_rendering<V: Stringify>(
    name: Seq<char>,
    value: &V,
    styles: Map<Seq<char>, Style>,
) -> Result<Seq<char>, Seq<char>> {
    if !styles.contains_key(role_name()) {
        Err(role_name())
    } else {
        match value.rendering(styles) {
            Ok(text) => Ok(indent_text(styles[role_name()]) + name + "="@ + text),
            Err(role) => Err(role),
        }
    }
}

/// Appends a field: the indentation of the `"name"` role, `name`, `=`, and
/// the text of `value` with the same table.
pub fn stringify_field<V: Stringify>(
    buf: &mut String,
    styles: &Styles,
    name: &str,
    value: &V,
) -> (r: StringifyResult<()>)
    requires
        value.renderable(),
    ensures
        wrote(field_rendering(name@, value, styles@), old(buf)@, final(buf)@, r),
{
    let name_style = match styles.get("name") {
        Ok(s) => s,
        Err(e) => return Err(e),
    };
    let ghost start = buf@;
    push_indent(buf, name_style);
    buf.append(name);
    buf.append("=");
    let r = value.stringify(buf, styles);
    proof {
        if let Ok(text) = value.rendering(styles@) {
            assert(buf@ =~= start + (indent_text(name_style) + name@ + "="@ + text));
        }
    }
    r
}

} // verus!
