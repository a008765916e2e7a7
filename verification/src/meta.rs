//! The kinds of entity fields that the level editor offers, chosen by the
//! Rust type name of the field.

use vstd::prelude::*;

verus! {

/// How the editor shows and stores one field of an entity.
#[derive(PartialEq, Eq, Structural, Copy, Clone, Debug)]
pub enum FieldKind {
    /// A reference to another entity.
    Object,
    /// A check box.
    Boolean,
    /// A whole number.
    Integer,
    /// A decimal number.
    Decimal,
    /// A line of text.
    Text,
    /// A color picked by its three channels.
    Color,
    /// One of a list of named choices.
    Enumerator,
}

/// The field kind of a Rust type name: every name that is not one of the
/// known ones names an enumeration.
pub open spec fn kind_of(field_type: Seq<char>) -> FieldKind {
    if field_type == "Object"@ {
        FieldKind::Object
    } else if field_type == "bool"@ {
        FieldKind::Boolean
    } else if field_type == "i32"@ || field_type == "i64"@ {
        FieldKind::Integer
    } else if field_type == "f32"@ || field_type == "f64"@ {
        FieldKind::Decimal
    } else if field_type == "String"@ {
        FieldKind::Text
    } else if field_type == "Color"@ {
        FieldKind::Color
    } else {
        FieldKind::Enumerator
    }
}

/// Whether two texts hold the same characters.
fn same_text(a: &str, b: &str) -> (same: bool)
    ensures
        same == (a@ == b@),
{
    a.to_owned() == b.to_owned()
}

/// The field kind of the field whose type is named `field_type`.
pub fn field_kind(field_type: &str) -> (kind: FieldKind)
    ensures
        kind == kind_of(field_type@),
{
    if same_text(field_type, "Object") {
        FieldKind::Object
    } else if same_text(field_type, "bool") {
        FieldKind::Boolean
    } else if same_text(field_type, "i32") || same_text(field_type, "i64") {
        FieldKind::Integer
    } else if same_text(field_type, "f32") || same_text(field_type, "f64") {
        FieldKind::Decimal
    } else if same_text(field_type, "String") {
        FieldKind::Text
    } else if same_text(field_type, "Color") {
        FieldKind::Color
    } else {
        FieldKind::Enumerator
    }
}

/// The field kind of each type name the editor knows: both integer widths
/// are whole numbers, both float widths decimal numbers; `bool`, `String`,
/// `Color` and `Object` have kinds of their own; any other name is taken
/// for an enumeration.
pub proof fn known_field_kinds()
    ensures
        forall|name: Seq<char>|
            name != "Object"@ && name != "bool"@ && name != "i32"@ && name != "i64"@ && name != "f32"@
                && name != "f64"@ && name != "String"@ && name != "Color"@ ==> #[trigger] kind_of(name)
                == FieldKind::Enumerator,
        kind_of("Object"@) == FieldKind::Object,
        kind_of("bool"@) == FieldKind::Boolean,
        kind_of("i32"@) == FieldKind::Integer,
        kind_of("i64"@) == FieldKind::Integer,
        kind_of("f32"@) == FieldKind::Decimal,
        kind_of("f64"@) == FieldKind::Decimal,
        kind_of("String"@) == FieldKind::Text,
        kind_of("Color"@) == FieldKind::Color,
{
    reveal_strlit("Object");
    reveal_strlit("bool");
    reveal_strlit("i32");
    reveal_strlit("i64");
    reveal_strlit("f32");
    reveal_strlit("f64");
    reveal_strlit("String");
    reveal_strlit("Color");
    assert("bool"@ != "Object"@) by {
        assert("bool"@.len() != "Object"@.len());
    }
    assert("i32"@ != "Object"@ && "i32"@ != "bool"@) by {
        assert("i32"@.len() != "Object"@.len() && "i32"@.len() != "bool"@.len());
    }
    assert("i64"@ != "Object"@ && "i64"@ != "bool"@) by {
        assert("i64"@.len() != "Object"@.len() && "i64"@.len() != "bool"@.len());
    }
    assert("f32"@ != "Object"@ && "f32"@ != "bool"@ && "f32"@ != "i32"@ && "f32"@ != "i64"@) by {
        assert("f32"@[0] != "i32"@[0] && "f32"@[0] != "i64"@[0]);
        assert("f32"@.len() != "Object"@.len() && "f32"@.len() != "bool"@.len());
    }
    assert("f64"@ != "Object"@ && "f64"@ != "bool"@ && "f64"@ != "i32"@ && "f64"@ != "i64"@) by {
        assert("f64"@[0] != "i32"@[0] && "f64"@[0] != "i64"@[0]);
        assert("f64"@.len() != "Object"@.len() && "f64"@.len() != "bool"@.len());
    }
    assert("String"@ != "Object"@ && "String"@ != "bool"@ && "String"@ != "i32"@ && "String"@ != "i64"@
        && "String"@ != "f32"@ && "String"@ != "f64"@) by {
        assert("String"@[0] != "Object"@[0]);
        assert("String"@.len() != "bool"@.len() && "String"@.len() != "i32"@.len());
    }
    assert("Color"@ != "Object"@ && "Color"@ != "bool"@ && "Color"@ != "i32"@ && "Color"@ != "i64"@
        && "Color"@ != "f32"@ && "Color"@ != "f64"@ && "Color"@ != "String"@) by {
        assert("Color"@.len() != "Object"@.len() && "Color"@.len() != "bool"@.len());
        assert("Color"@.len() != "i32"@.len() && "Color"@.len() != "String"@.len());
    }
}

} // verus!
