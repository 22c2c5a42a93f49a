use std::collections::{BTreeMap, HashMap};
use stringify::stringify::stringify_field;
use stringify::{Newline, Stringify, StringifyError, Style, Styles};

fn table(pairs: Vec<(&'static str, Style)>) -> Styles {
    Styles::new(pairs)
}

fn flat(newline: Newline, level: usize) -> Style {
    Style::standard(newline, level)
}

#[test]
fn sequence_of_two_with_line_breaks() {
    let styles = table(vec![("start", flat(Newline::Omit, 0)), ("end", flat(Newline::Add, 0))]);
    let out = vec![1i32, 2].stringify_new(&styles).unwrap();
    assert_eq!(out, "Vec [\n    1,\n    2,\n]");
}

#[test]
fn sequence_of_two_without_line_breaks() {
    let styles = table(vec![("start", flat(Newline::Omit, 0)), ("end", flat(Newline::Omit, 0))]);
    let out = vec![1i32, 2].stringify_new(&styles).unwrap();
    assert_eq!(out, "Vec [    1,    2,]");
}

#[test]
fn empty_ordered_map_with_empty_table() {
    let m: BTreeMap<u32, u32> = BTreeMap::new();
    assert_eq!(m.stringify_primitive_new().unwrap(), "BTreeMap {}");
    assert_eq!(m.stringify_new(&table(vec![])).unwrap(), "BTreeMap {}");
}

#[test]
fn empty_containers_ignore_styles() {
    let styles = table(vec![("start", flat(Newline::Add, 3)), ("end", flat(Newline::Add, 5))]);
    let v: Vec<u8> = Vec::new();
    let h: HashMap<u8, u8> = HashMap::new();
    let b: BTreeMap<u8, u8> = BTreeMap::new();
    assert_eq!(v.stringify_new(&styles).unwrap(), "Vec []");
    assert_eq!(h.stringify_new(&styles).unwrap(), "HashMap {}");
    assert_eq!(b.stringify_new(&styles).unwrap(), "BTreeMap {}");
    assert_eq!(v.stringify_primitive_new().unwrap(), "Vec []");
}

#[test]
fn field_at_level_one() {
    let styles = table(vec![("name", flat(Newline::Add, 1))]);
    let mut buf = String::new();
    stringify_field(&mut buf, &styles, "count", &5i32).unwrap();
    assert_eq!(buf, "\n    count=5");
}

#[test]
fn field_without_name_role() {
    let mut buf = String::new();
    let r = stringify_field(&mut buf, &table(vec![]), "count", &5i32);
    assert_eq!(r, Err(StringifyError::StyleNotFound { name: "name" }));
}

#[test]
fn absent_role_is_reported() {
    let styles = table(vec![("start", Style::default())]);
    assert_eq!(styles.get("end"), Err(StringifyError::StyleNotFound { name: "end" }));
    assert_eq!(table(vec![]).get("key"), Err(StringifyError::StyleNotFound { name: "key" }));
    assert_eq!(styles.get("start"), Ok(Style::default()));
}

#[test]
fn later_pair_wins() {
    let styles = table(vec![("end", flat(Newline::Add, 1)), ("end", flat(Newline::Omit, 2))]);
    assert_eq!(styles.get("end"), Ok(flat(Newline::Omit, 2)));
}

#[test]
fn sequence_without_roles_fails_on_end() {
    let r = vec![1u8].stringify_primitive_new();
    assert_eq!(r, Err(StringifyError::StyleNotFound { name: "end" }));
    let only_end = table(vec![("end", Style::default())]);
    assert_eq!(vec![1u8].stringify_new(&only_end), Err(StringifyError::StyleNotFound { name: "start" }));
}

#[test]
fn leaf_indentation_in_flat_sequence() {
    // every leaf of a sequence whose "end" level is zero is preceded by one unit
    let styles = table(vec![("start", flat(Newline::Omit, 0)), ("end", flat(Newline::Add, 0))]);
    let out = vec![7u8, 8, 9].stringify_new(&styles).unwrap();
    assert_eq!(out, "Vec [\n    7,\n    8,\n    9,\n]");
    // a leaf on its own has no indentation
    assert_eq!(7u8.stringify_new(&styles).unwrap(), "7");
}

#[test]
fn nested_sequences_share_the_table() {
    let styles = table(vec![("start", flat(Newline::Omit, 0)), ("end", flat(Newline::Add, 0))]);
    let out = vec![vec![1u8]].stringify_new(&styles).unwrap();
    assert_eq!(out, "Vec [\n    Vec [\n    1,\n],\n]");
}

#[test]
fn ordered_map_entries() {
    let mut m = BTreeMap::new();
    m.insert(3u32, 4u32);
    m.insert(1u32, 2u32);
    let styles = table(vec![("start", flat(Newline::Omit, 0)), ("end", flat(Newline::Omit, 0))]);
    assert_eq!(m.stringify_new(&styles).unwrap(), "BTreeMap {1 : 2,3 : 4,\n    }");
    assert_eq!(m.stringify_new(&styles), m.stringify_new(&styles));
}

#[test]
fn ordered_map_levels() {
    let mut m = BTreeMap::new();
    m.insert(1u32, true);
    let styles = table(vec![("start", flat(Newline::Add, 1)), ("end", flat(Newline::Omit, 1))]);
    assert_eq!(m.stringify_new(&styles).unwrap(), "\n    BTreeMap {1 : true,\n        }");
}

#[test]
fn ordered_map_missing_end() {
    let mut m = BTreeMap::new();
    m.insert(1u32, 2u32);
    let styles = table(vec![("start", Style::default())]);
    assert_eq!(m.stringify_new(&styles), Err(StringifyError::StyleNotFound { name: "end" }));
    assert_eq!(m.stringify_primitive_new(), Err(StringifyError::StyleNotFound { name: "start" }));
}

#[test]
fn map_value_gets_only_value_role() {
    let mut m = BTreeMap::new();
    m.insert(1u32, vec![2u32]);
    let styles = table(vec![("start", Style::default()), ("end", Style::default())]);
    assert_eq!(m.stringify_new(&styles), Err(StringifyError::StyleNotFound { name: "end" }));
}

#[test]
fn hashed_map_single_entry() {
    let mut m = HashMap::new();
    m.insert(String::from("a"), -1i64);
    let styles = table(vec![("start", Style::default()), ("end", Style::default())]);
    assert_eq!(m.stringify_new(&styles).unwrap(), "HashMap {a : -1,\n    }");
}

#[test]
fn primitives_render_plainly() {
    assert_eq!(true.stringify_primitive_new().unwrap(), "true");
    assert_eq!(false.stringify_primitive_new().unwrap(), "false");
    assert_eq!(0u8.stringify_primitive_new().unwrap(), "0");
    assert_eq!((-128i8).stringify_primitive_new().unwrap(), "-128");
    assert_eq!(i128::MIN.stringify_primitive_new().unwrap(), "-170141183460469231731687303715884105728");
    assert_eq!(u128::MAX.stringify_primitive_new().unwrap(), "340282366920938463463374607431768211455");
    assert_eq!(1234usize.stringify_primitive_new().unwrap(), "1234");
    assert_eq!((-40isize).stringify_primitive_new().unwrap(), "-40");
    assert_eq!(65535u16.stringify_primitive_new().unwrap(), "65535");
    assert_eq!((-7i16).stringify_primitive_new().unwrap(), "-7");
    assert_eq!(10u32.stringify_primitive_new().unwrap(), "10");
    assert_eq!(u64::MAX.stringify_primitive_new().unwrap(), "18446744073709551615");
    assert_eq!(i32::MIN.stringify_primitive_new().unwrap(), "-2147483648");
    assert_eq!(i64::MAX.stringify_primitive_new().unwrap(), "9223372036854775807");
    assert_eq!(String::from("héllo").stringify_primitive_new().unwrap(), "héllo");
    assert_eq!("x y".stringify_primitive_new().unwrap(), "x y");
}

#[test]
fn primitive_appends_to_buffer() {
    let mut buf = String::from("n=");
    42u8.stringify_primitive(&mut buf).unwrap();
    assert_eq!(buf, "n=42");
}

#[test]
fn indentation_primitive() {
    let mut buf = String::new();
    0u8.indent(&mut buf, Style { newline: Newline::Add, indent_level: 3, indent: "-" });
    assert_eq!(buf, "\n---");
    let mut buf = String::new();
    0u8.indent(&mut buf, Style { newline: Newline::Omit, indent_level: 0, indent: "-" });
    assert_eq!(buf, "");
}

#[test]
fn style_builders() {
    let s = Style::standard(Newline::Add, 2);
    assert_eq!(s, Style { newline: Newline::Add, indent_level: 2, indent: "    " });
    assert_eq!(Style::unused(), Style::default());
    assert_eq!(Style::default(), Style { newline: Newline::Omit, indent_level: 0, indent: "    " });
    assert_eq!(s.with_newline(Newline::Omit), Style { newline: Newline::Omit, indent_level: 2, indent: "    " });
    assert_eq!(s.with_indent_level(7), Style { newline: Newline::Add, indent_level: 7, indent: "    " });
}

#[test]
fn style_arithmetic() {
    let s = Style { newline: Newline::Add, indent_level: 2, indent: "\t" };
    assert_eq!(s.add(3).indent_level, 5);
    assert_eq!(s.add(3).indent, "\t");
    assert_eq!(s.with_indent_level(usize::MAX).add(1).indent_level, usize::MAX);
    assert_eq!((s - 1).indent_level, 1);
    assert_eq!((s - 5).indent_level, 0);
    let t = Style::standard(Newline::Omit, 1);
    assert_eq!(s - t, Style { newline: Newline::Add, indent_level: 1, indent: "\t" });
    assert_eq!((t - s).indent_level, 0);
}
