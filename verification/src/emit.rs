//! Emission: the source text of a companion type and of its operations.

use vstd::prelude::*;
use crate::companion::{
    CompanionType, CompanionTypeView, FieldType, FieldTypeView, GeneratedField, GeneratedFieldView,
    generated, generated_fields_view, synthesize,
};
use crate::declaration::{Declaration, DeclarationView};
use crate::extract::GenerateError;
use crate::literal::{StringLiteral, StringLiteralView};

verus! {

/// The pieces that are emitted once per field.
#[derive(Clone, Copy, Debug, PartialEq, Eq, Structural)]
pub enum Piece {
    /// The field inside the type's declaration, with its annotations.
    Declaration,
    /// The constructor's parameter, for a field that has one.
    Parameter,
    /// The field's initial value inside the constructor.
    Initializer,
    /// The setter and the read accessor.
    Accessors,
    /// The field's value inside the conversion from the source type.
    Conversion,
}

/// A serialization directive with a string literal as its value.
pub open spec fn directive_text(key: Seq<char>, lit: StringLiteralView) -> Seq<char> {
    "#[serde("@ + key + " = "@ + lit.token + ")]"@
}

/// The type that a generated field is stored with.
pub open spec fn stored_type_text(ty: FieldTypeView) -> Seq<char> {
    match ty {
        FieldTypeView::Plain(declared) => declared,
        FieldTypeView::Optional(declared) => "std::option::Option<"@ + declared + ">"@,
    }
}

/// A field of the type's declaration: the rename directive where there is
/// one, the omission directive where the field asks for it, then the field.
pub open spec fn declaration_text(field: GeneratedFieldView) -> Seq<char> {
    let rename = match field.rename {
        Some(lit) => "    "@ + directive_text("rename"@, lit) + "\n"@,
        None => Seq::<char>::empty(),
    };
    let omit = if field.omit_if_absent {
        "    #[serde(skip_serializing_if = \"Option::is_none\")]\n"@
    } else {
        Seq::<char>::empty()
    };
    rename + omit + "    "@ + field.name + ": "@ + stored_type_text(field.ty) + ",\n"@
}

/// The constructor's parameter: one for a field stored plainly, none for an
/// optional one.
pub open spec fn parameter_text(field: GeneratedFieldView) -> Seq<char> {
    match field.ty {
        FieldTypeView::Plain(declared) => "        "@ + field.name + ": "@ + declared + ",\n"@,
        FieldTypeView::Optional(_) => Seq::<char>::empty(),
    }
}

/// The field's initial value: the parameter, or absent.
pub open spec fn initializer_text(field: GeneratedFieldView) -> Seq<char> {
    match field.ty {
        FieldTypeView::Plain(_) => "            "@ + field.name + ",\n"@,
        FieldTypeView::Optional(_) => "            "@ + field.name
            + ": std::option::Option::None,\n"@,
    }
}

/// The value that a setter stores for its argument.
pub open spec fn stored_value_text(field: GeneratedFieldView) -> Seq<char> {
    match field.ty {
        FieldTypeView::Plain(_) => field.name,
        FieldTypeView::Optional(_) => "std::option::Option::Some("@ + field.name + ")"@,
    }
}

/// The fluent setter, which takes the declared type, and the read accessor,
/// which hands out the stored one.
pub open spec fn accessors_text(field: GeneratedFieldView) -> Seq<char> {
    "\n    pub fn "@ + field.name + "(mut self, "@ + field.name + ": "@ + field.ty.declared()
        + ") -> Self {\n        self."@ + field.name + " = "@ + stored_value_text(field)
        + ";\n        self\n    }\n\n    pub fn get_"@ + field.name + "(&self) -> &"@
        + stored_type_text(field.ty) + " {\n        &self."@ + field.name + "\n    }\n"@
}

/// The field's value in a conversion: the source's value, wrapped as present
/// for an optional field.
pub open spec fn conversion_text(field: GeneratedFieldView) -> Seq<char> {
    match field.ty {
        FieldTypeView::Plain(_) => "            "@ + field.name + ": value."@ + field.name
            + ",\n"@,
        FieldTypeView::Optional(_) => "            "@ + field.name + ": Some(value."@
            + field.name + "),\n"@,
    }
}

/// The text of one piece for one field.
pub open spec fn piece_text(field: GeneratedFieldView, piece: Piece) -> Seq<char> {
    match piece {
        Piece::Declaration => declaration_text(field),
        Piece::Parameter => parameter_text(field),
        Piece::Initializer => initializer_text(field),
        Piece::Accessors => accessors_text(field),
        Piece::Conversion => conversion_text(field),
    }
}

/// The texts of one piece for the first `n` fields, one after the other.
pub open spec fn pieces_text(fields: Seq<GeneratedFieldView>, piece: Piece, n: int) -> Seq<char>
    decreases n,
{
    if n <= 0 {
        Seq::<char>::empty()
    } else {
        pieces_text(fields, piece, n - 1) + piece_text(fields[n - 1], piece)
    }
}

/// The texts of one piece for all fields, in field order.
pub open spec fn all_pieces_text(fields: Seq<GeneratedFieldView>, piece: Piece) -> Seq<char> {
    pieces_text(fields, piece, fields.len() as int)
}

/// The declaration of the companion type.
pub open spec fn type_text(companion: CompanionTypeView) -> Seq<char> {
    let casing = match companion.rename_all {
        Some(lit) => directive_text("rename_all"@, lit) + "\n"@,
        None => Seq::<char>::empty(),
    };
    "#[derive(Clone, Debug, PartialEq, serde::Serialize)]\n"@ + casing + "pub struct "@
        + companion.name + " {\n"@ + all_pieces_text(companion.fields, Piece::Declaration)
        + "}\n"@
}

/// The constructor, the setters and the read accessors.
pub open spec fn operations_text(companion: CompanionTypeView) -> Seq<char> {
    "impl "@ + companion.name + " {\n    pub fn new(\n"@ + all_pieces_text(
        companion.fields,
        Piece::Parameter,
    ) + "    ) -> Self {\n        Self {\n"@ + all_pieces_text(
        companion.fields,
        Piece::Initializer,
    ) + "        }\n    }\n"@ + all_pieces_text(companion.fields, Piece::Accessors) + "}\n"@
}

/// The conversion from the source type.
pub open spec fn from_source_text(companion: CompanionTypeView) -> Seq<char> {
    "impl From<"@ + companion.source + "> for "@ + companion.name
        + " {\n    fn from(value: "@ + companion.source + ") -> Self {\n        Self {\n"@
        + all_pieces_text(companion.fields, Piece::Conversion) + "        }\n    }\n}\n"@
}

/// Everything that is emitted for one companion type.
pub open spec fn expansion_text(companion: CompanionTypeView) -> Seq<char> {
    type_text(companion) + "\n"@ + operations_text(companion) + "\n"@ + from_source_text(
        companion,
    )
}

/// The model of the outcome of [`derive`].
pub open spec fn derived_view(outcome: Result<String, GenerateError>) -> Result<
    Seq<char>,
    GenerateError,
> {
    match outcome {
        Ok(text) => Ok(text@),
        Err(e) => Err(e),
    }
}

/// What [`derive`] makes of a declaration.
pub open spec fn derived(decl: DeclarationView) -> Result<
    Seq<char>,
    GenerateError,
> {
    match generated(decl) {
        Ok(companion) => Ok(expansion_text(companion)),
        Err(e) => Err(e),
    }
}

/// Appends a serialization directive.
pub fn emit_directive(out: &mut String, key: &str, lit: &StringLiteral)
    ensures
        final(out)@ == old(out)@ + directive_text(key@, lit@),
{
    let ghost before = out@;
    out.append("#[serde(");
    out.append(key);
    out.append(" = ");
    out.append(lit.token.as_str());
    out.append(")]");
    assert(out@ =~= before + directive_text(key@, lit@));
}

/// Appends the type that a generated field is stored with.
pub fn emit_stored_type(out: &mut String, ty: &FieldType)
    ensures
        final(out)@ == old(out)@ + stored_type_text(ty@),
{
    let ghost before = out@;
    match ty {
        FieldType::Plain(declared) => {
            out.append(declared.as_str());
        },
        FieldType::Optional(declared) => {
            out.append("std::option::Option<");
            out.append(declared.as_str());
            out.append(">");
            assert(out@ =~= before + stored_type_text(ty@));
        },
    }
}

fn emit_declaration(out: &mut String, field: &GeneratedField)
    ensures
        final(out)@ == old(out)@ + declaration_text(field@),
{
    let ghost before = out@;
    if let Some(lit) = &field.rename {
        out.append("    ");
        emit_directive(out, "rename", lit);
        out.append("\n");
    }
    if field.omit_if_absent {
        out.append("    #[serde(skip_serializing_if = \"Option::is_none\")]\n");
    }
    out.append("    ");
    out.append(field.name.as_str());
    out.append(": ");
    emit_stored_type(out, &field.ty);
    out.append(",\n");
    assert(out@ =~= before + declaration_text(field@));
}

fn emit_parameter(out: &mut String, field: &GeneratedField)
    ensures
        final(out)@ == old(out)@ + parameter_text(field@),
{
    let ghost before = out@;
    match &field.ty {
        FieldType::Plain(declared) => {
            out.append("        ");
            out.append(field.name.as_str());
            out.append(": ");
            out.append(declared.as_str());
            out.append(",\n");
        },
        FieldType::Optional(_) => {},
    }
    assert(out@ =~= before + parameter_text(field@));
}

fn emit_initializer(out: &mut String, field: &GeneratedField)
    ensures
        final(out)@ == old(out)@ + initializer_text(field@),
{
    let ghost before = out@;
    out.append("            ");
    out.append(field.name.as_str());
    match &field.ty {
        FieldType::Plain(_) => {
            out.append(",\n");
        },
        FieldType::Optional(_) => {
            out.append(": std::option::Option::None,\n");
        },
    }
    assert(out@ =~= before + initializer_text(field@));
}

fn emit_accessors(out: &mut String, field: &GeneratedField)
    ensures
        final(out)@ == old(out)@ + accessors_text(field@),
{
    let ghost before = out@;
    let name = field.name.as_str();
    out.append("\n    pub fn ");
    out.append(name);
    out.append("(mut self, ");
    out.append(name);
    out.append(": ");
    out.append(field.ty.declared().as_str());
    out.append(") -> Self {\n        self.");
    out.append(name);
    out.append(" = ");
    let ghost head = out@;
    match &field.ty {
        FieldType::Plain(_) => {
            out.append(name);
        },
        FieldType::Optional(_) => {
            out.append("std::option::Option::Some(");
            out.append(name);
            out.append(")");
        },
    }
    assert(out@ =~= head + stored_value_text(field@));
    out.append(";\n        self\n    }\n\n    pub fn get_");
    out.append(name);
    out.append("(&self) -> &");
    emit_stored_type(out, &field.ty);
    out.append(" {\n        &self.");
    out.append(name);
    out.append("\n    }\n");
    assert(out@ =~= before + accessors_text(field@));
}

fn emit_conversion(out: &mut String, field: &GeneratedField)
    ensures
        final(out)@ == old(out)@ + conversion_text(field@),
{
    let ghost before = out@;
    let name = field.name.as_str();
    out.append("            ");
    out.append(name);
    match &field.ty {
        FieldType::Plain(_) => {
            out.append(": value.");
            out.append(name);
            out.append(",\n");
        },
        FieldType::Optional(_) => {
            out.append(": Some(value.");
            out.append(name);
            out.append("),\n");
        },
    }
    assert(out@ =~= before + conversion_text(field@));
}

/// Appends one piece for one field.
pub fn emit_piece(out: &mut String, field: &GeneratedField, piece: Piece)
    ensures
        final(out)@ == old(out)@ + piece_text(field@, piece),
{
    match piece {
        Piece::Declaration => emit_declaration(out, field),
        Piece::Parameter => emit_parameter(out, field),
        Piece::Initializer => emit_initializer(out, field),
        Piece::Accessors => emit_accessors(out, field),
        Piece::Conversion => emit_conversion(out, field),
    }
}

/// Appends one piece for every field, in field order.
pub fn emit_pieces(out: &mut String, fields: &[GeneratedField], piece: Piece)
    ensures
        final(out)@ == old(out)@ + all_pieces_text(generated_fields_view(fields@), piece),
{
    let ghost before = out@;
    let ghost model = generated_fields_view(fields@);
    let mut i: usize = 0;
    while i < fields.len()
        invariant
            i <= fields.len(),
            model == generated_fields_view(fields@),
            out@ == before + pieces_text(model, piece, i as int),
        decreases fields.len() - i,
    {
        let ghost so_far = out@;
        emit_piece(out, &fields[i], piece);
        assert(out@ =~= before + pieces_text(model, piece, i as int + 1)) by {
            assert(model[i as int] == fields@[i as int]@);
        }
        i += 1;
    }
}

/// Emits the declaration of the companion type.
pub fn emit_type(companion: &CompanionType) -> (text: String)
    ensures
        text@ == type_text(companion@),
{
    let mut out = "#[derive(Clone, Debug, PartialEq, serde::Serialize)]\n".to_owned();
    if let Some(lit) = &companion.rename_all {
        emit_directive(&mut out, "rename_all", lit);
        out.append("\n");
    }
    out.append("pub struct ");
    out.append(companion.name.as_str());
    out.append(" {\n");
    emit_pieces(&mut out, companion.fields.as_slice(), Piece::Declaration);
    out.append("}\n");
    assert(out@ =~= type_text(companion@));
    out
}

/// Emits the constructor, the setters and the read accessors.
pub fn emit_operations(companion: &CompanionType) -> (text: String)
    ensures
        text@ == operations_text(companion@),
{
    let mut out = "impl ".to_owned();
    out.append(companion.name.as_str());
    out.append(" {\n    pub fn new(\n");
    emit_pieces(&mut out, companion.fields.as_slice(), Piece::Parameter);
    out.append("    ) -> Self {\n        Self {\n");
    emit_pieces(&mut out, companion.fields.as_slice(), Piece::Initializer);
    out.append("        }\n    }\n");
    emit_pieces(&mut out, companion.fields.as_slice(), Piece::Accessors);
    out.append("}\n");
    assert(out@ =~= operations_text(companion@));
    out
}

/// Emits the conversion from the source type.
pub fn emit_from_source(companion: &CompanionType) -> (text: String)
    ensures
        text@ == from_source_text(companion@),
{
    let mut out = "impl From<".to_owned();
    out.append(companion.source.as_str());
    out.append("> for ");
    out.append(companion.name.as_str());
    out.append(" {\n    fn from(value: ");
    out.append(companion.source.as_str());
    out.append(") -> Self {\n        Self {\n");
    emit_pieces(&mut out, companion.fields.as_slice(), Piece::Conversion);
    out.append("        }\n    }\n}\n");
    assert(out@ =~= from_source_text(companion@));
    out
}

/// Emits everything for one companion type: its declaration, its
/// operations, and the conversion from the source type.
pub fn expand(companion: &CompanionType) -> (text: String)
    ensures
        text@ == expansion_text(companion@),
{
    let mut out = emit_type(companion);
    out.append("\n");
    out.append(emit_operations(companion).as_str());
    out.append("\n");
    out.append(emit_from_source(companion).as_str());
    assert(out@ =~= expansion_text(companion@));
    out
}

/// Generates the companion of a declaration and emits it as source text.
///
/// Fails for every declaration that is not a struct with named fields, and
/// for no other.
pub fn derive(input: &Declaration) -> (outcome: Result<String, GenerateError>)
    ensures
        derived_view(outcome) == derived(input@),
{
    match synthesize(input) {
        Ok(companion) => Ok(expand(&companion)),
        Err(e) => Err(e),
    }
}

} // verus!
