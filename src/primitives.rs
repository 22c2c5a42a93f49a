use crate::error::StringifyResult;
use crate::styles::{Style, Styles};
use crate::stringify::Stringify;
use crate::text::{decimal, push_signed, push_unsigned, signed_decimal};
use vstd::prelude::*;

verus! {

impl Stringify for bool {
    /// `true` or `false`; no role is read.
    open spec fn rendering(&self, styles: Map<Seq<char>, Style>) -> Result<Seq<char>, Seq<char>> {
        if *self {
            Ok("true"@)
        } else {
            Ok("false"@)
        }
    }

    open spec fn renderable(&self) -> bool {
        true
    }

    fn stringify(&self, buf: &mut String, styles: &Styles) -> (r: StringifyResult<()>) {
        if *self {
            buf.append("true");
        } else {
            buf.append("false");
        }
        Ok(())
    }
}

impl Stringify for String {
    /// The text itself; no role is read.
    open spec fn rendering(&self, styles: Map<Seq<char>, Style>) -> Result<Seq<char>, Seq<char>> {
        Ok(self@)
    }

    open spec fn renderable(&self) -> bool {
        true
    }

    fn stringify(&self, buf: &mut String, styles: &Styles) -> (r: StringifyResult<()>) {
        buf.append(self.as_str());
        Ok(())
    }
}

impl<'s> Stringify for &'s str {
    /// The text itself; no role is read.
    open spec fn rendering(&self, styles: Map<Seq<char>, Style>) -> Result<Seq<char>, Seq<char>> {
        Ok((*self)@)
    }

    open spec fn renderable(&self) -> bool {
        true
    }

    fn stringify(&self, buf: &mut String, styles: &Styles) -> (r: StringifyResult<()>) {
        buf.append(*self);
        Ok(())
    }
}

impl Stringify for usize {
    /// The decimal numeral; no role is read.
    open spec fn rendering(&self, styles: Map<Seq<char>, Style>) -> Result<Seq<char>, Seq<char>> {
        Ok(decimal(*self as nat))
    }

    open spec fn renderable(&self) -> bool {
        true
    }

    fn stringify(&self, buf: &mut String, styles: &Styles) -> (r: StringifyResult<()>) {
        push_unsigned(buf, *self as u128);
        Ok(())
    }
}

impl Stringify for u8 {
    /// The decimal numeral; no role is read.
    open spec fn rendering(&self, styles: Map<Seq<char>, Style>) -> Result<Seq<char>, Seq<char>> {
        Ok(decimal(*self as nat))
    }

    open spec fn renderable(&self) -> bool {
        true
    }

    fn stringify(&self, buf: &mut String, styles: &Styles) -> (r: StringifyResult<()>) {
        push_unsigned(buf, *self as u128);
        Ok(())
    }
}

impl Stringify for u16 {
    /// The decimal numeral; no role is read.
    open spec fn rendering(&self, styles: Map<Seq<char>, Style>) -> Result<Seq<char>, Seq<char>> {
        Ok(decimal(*self as nat))
    }

    open spec fn renderable(&self) -> bool {
        true
    }

    fn stringify(&self, buf: &mut String, styles: &Styles) -> (r: StringifyResult<()>) {
        push_unsigned(buf, *self as u128);
        Ok(())
    }
}

impl Stringify for u32 {
    /// The decimal numeral; no role is read.
    open spec fn rendering(&self, styles: Map<Seq<char>, Style>) -> Result<Seq<char>, Seq<char>> {
        Ok(decimal(*self as nat))
    }

    open spec fn renderable(&self) -> bool {
        true
    }

    fn stringify(&self, buf: &mut String, styles: &Styles) -> (r: StringifyResult<()>) {
        push_unsigned(buf, *self as u128);
        Ok(())
    }
}

impl Stringify for u64 {
    /// The decimal numeral; no role is read.
    open spec fn rendering(&self, styles: Map<Seq<char>, Style>) -> Result<Seq<char>, Seq<char>> {
        Ok(decimal(*self as nat))
    }

    open spec fn renderable(&self) -> bool {
        true
    }

    fn stringify(&self, buf: &mut String, styles: &Styles) -> (r: StringifyResult<()>) {
        push_unsigned(buf, *self as u128);
        Ok(())
    }
}

impl Stringify for u128 {
    /// The decimal numeral; no role is read.
    open spec fn rendering(&self, styles: Map<Seq<char>, Style>) -> Result<Seq<char>, Seq<char>> {
        Ok(decimal(*self as nat))
    }

    open spec fn renderable(&self) -> bool {
        true
    }

    fn stringify(&self, buf: &mut String, styles: &Styles) -> (r: StringifyResult<()>) {
        push_unsigned(buf, *self as u128);
        Ok(())
    }
}

impl Stringify for isize {
    /// The decimal numeral, with `-` when negative; no role is read.
    open spec fn rendering(&self, styles: Map<Seq<char>, Style>) -> Result<Seq<char>, Seq<char>> {
        Ok(signed_decimal(*self as int))
    }

    open spec fn renderable(&self) -> bool {
        true
    }

    fn stringify(&self, buf: &mut String, styles: &Styles) -> (r: StringifyResult<()>) {
        push_signed(buf, *self as i128);
        Ok(())
    }
}

impl Stringify for i8 {
    /// The decimal numeral, with `-` when negative; no role is read.
    open spec fn rendering(&self, styles: Map<Seq<char>, Style>) -> Result<Seq<char>, Seq<char>> {
        Ok(signed_decimal(*self as int))
    }

    open spec fn renderable(&self) -> bool {
        true
    }

    fn stringify(&self, buf: &mut String, styles: &Styles) -> (r: StringifyResult<()>) {
        push_signed(buf, *self as i128);
        Ok(())
    }
}

impl Stringify for i16 {
    /// The decimal numeral, with `-` when negative; no role is read.
    open spec fn rendering(&self, styles: Map<Seq<char>, Style>) -> Result<Seq<char>, Seq<char>> {
        Ok(signed_decimal(*self as int))
    }

    open spec fn renderable(&self) -> bool {
        true
    }

    fn stringify(&self, buf: &mut String, styles: &Styles) -> (r: StringifyResult<()>) {
        push_signed(buf, *self as i128);
        Ok(())
    }
}

impl Stringify for i32 {
    /// The decimal numeral, with `-` when negative; no role is read.
    open spec fn rendering(&self, styles: Map<Seq<char>, Style>) -> Result<Seq<char>, Seq<char>> {
        Ok(signed_decimal(*self as int))
    }

    open spec fn renderable(&self) -> bool {
        true
    }

    fn stringify(&self, buf: &mut String, styles: &Styles) -> (r: StringifyResult<()>) {
        push_signed(buf, *self as i128);
        Ok(())
    }
}

impl Stringify for i64 {
    /// The decimal numeral, with `-` when negative; no role is read.
    open spec fn rendering(&self, styles: Map<Seq<char>, Style>) -> Result<Seq<char>, Seq<char>> {
        Ok(signed_decimal(*self as int))
    }

    open spec fn renderable(&self) -> bool {
        true
    }

    fn stringify(&self, buf: &mut String, styles: &Styles) -> (r: StringifyResult<()>) {
        push_signed(buf, *self as i128);
        Ok(())
    }
}

impl Stringify for i128 {
    /// The decimal numeral, with `-` when negative; no role is read.
    open spec fn rendering(&self, styles: Map<Seq<char>, Style>) -> Result<Seq<char>, Seq<char>> {
        Ok(signed_decimal(*self as int))
    }

    open spec fn renderable(&self) -> bool {
        true
    }

    fn stringify(&self, buf: &mut String, styles: &Styles) -> (r: StringifyResult<()>) {
        push_signed(buf, *self as i128);
        Ok(())
    }
}

} // verus!
