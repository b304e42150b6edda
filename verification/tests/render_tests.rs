use super_enum::descriptor::{EnumDescriptor, FieldShape, TypeDescriptor, VariantDescriptor};
use super_enum::render::{dec_string, render_declarations};
use super_enum::table::super_enum;

fn lines_to_text(lines: &[&str]) -> String {
    let mut text = String::new();
    for line in lines {
        text.push_str(line);
        text.push('\n');
    }
    text
}

#[test]
fn decimal_rendering_is_exact() {
    assert_eq!(dec_string(0), "0");
    assert_eq!(dec_string(7), "7");
    assert_eq!(dec_string(10), "10");
    assert_eq!(dec_string(90210), "90210");
}

#[test]
fn rendered_declarations_for_all_field_shapes() {
    let e = EnumDescriptor {
        name: String::from("State"),
        variants: vec![
            VariantDescriptor { name: String::from("Idle"), shape: FieldShape::Unit },
            VariantDescriptor {
                name: String::from("RunningFast"),
                shape: FieldShape::Unnamed(2),
            },
            VariantDescriptor {
                name: String::from("Stopped"),
                shape: FieldShape::Named(vec![String::from("code"), String::from("fatal")]),
            },
        ],
    };
    let t = super_enum(TypeDescriptor::Enum(e)).unwrap();
    let expected = lines_to_text(&[
        "impl State {",
        "    pub fn all() -> Vec<State> {",
        "        let mut all = Vec::with_capacity(3);",
        "        for i in 0..3 {",
        "            all.push(Self::from(i))",
        "        }",
        "        all",
        "    }",
        "",
        "    pub const fn as_str_array() -> &'static [&'static str; 3] {",
        "        const STRS: [&'static str; 3] = [\"Idle\", \"Running Fast\", \"Stopped\"];",
        "        &STRS",
        "    }",
        "",
        "    pub fn as_str(&self) -> &'static str {",
        "        let id: usize = (*self).into();",
        "        &State::as_str_array()[id]",
        "    }",
        "",
        "    pub const fn len() -> usize {",
        "        3",
        "    }",
        "}",
        "",
        "impl Into<usize> for State {",
        "    fn into(self) -> usize {",
        "        match self {",
        "            State::Idle => 0,",
        "            State::RunningFast(..) => 1,",
        "            State::Stopped { .. } => 2,",
        "        }",
        "    }",
        "}",
        "",
        "impl From<usize> for State {",
        "    fn from(value: usize) -> Self {",
        "        match value {",
        "            0 => State::Idle,",
        "            1 => State::RunningFast(Default::default(), Default::default()),",
        "            2 => State::Stopped { code: Default::default(), fatal: Default::default() },",
        "            _ => panic!(\"Invalid enum variant index: {}\", value),",
        "        }",
        "    }",
        "}",
        "",
        "impl Into<u64> for State {",
        "    fn into(self) -> u64 {",
        "        match self {",
        "            State::Idle => 0 as u64,",
        "            State::RunningFast(..) => 1 as u64,",
        "            State::Stopped { .. } => 2 as u64,",
        "        }",
        "    }",
        "}",
    ]);
    assert_eq!(render_declarations(&t), expected);
}

#[test]
fn rendered_arm_of_empty_positional_variant() {
    let e = EnumDescriptor {
        name: String::from("Solo"),
        variants: vec![VariantDescriptor {
            name: String::from("Only"),
            shape: FieldShape::Unnamed(0),
        }],
    };
    let t = super_enum(TypeDescriptor::Enum(e)).unwrap();
    let text = render_declarations(&t);
    assert!(text.contains("            0 => Solo::Only(),\n"));
    assert!(text.contains("            Solo::Only(..) => 0,\n"));
    assert!(text.contains("            Solo::Only(..) => 0 as u64,\n"));
    assert!(text.contains("const STRS: [&'static str; 1] = [\"Only\"];"));
    assert!(text.contains("pub const fn len() -> usize {\n        1\n    }"));
}
