//! Field descriptors: what the generator keeps of each source field.

use vstd::prelude::*;
use crate::annotation::{carried, get_rename, is_required, required};
use crate::declaration::{
    Declaration, DeclarationView, Field, FieldView, Shape, ShapeView, fields_view,
};
use crate::literal::{StringLiteral, StringLiteralView, literal_view};

verus! {

/// Why no companion type can be generated.
#[derive(Clone, Copy, Debug, PartialEq, Eq, Structural)]
pub enum GenerateError {
    /// The declaration is not a struct with a list of named fields.
    UnsupportedShape,
}

/// What the generator keeps of one source field.
pub struct FieldDescriptor {
    /// The field's name, as declared.
    pub name: String,
    /// The field's type, as declared.
    pub declared_type: String,
    /// The rename directive among the field's annotations.
    pub rename: Option<StringLiteral>,
    /// Whether the field carries the required marker. Everything that is
    /// decided about the field downstream goes by this flag.
    pub is_required: bool,
}

/// The model of a [`FieldDescriptor`].
pub struct FieldDescriptorView {
    pub name: Seq<char>,
    pub declared_type: Seq<char>,
    pub rename: Option<StringLiteralView>,
    pub is_required: bool,
}

impl View for FieldDescriptor {
    type V = FieldDescriptorView;

    open spec fn view(&self) -> FieldDescriptorView {
        FieldDescriptorView {
            name: self.name@,
            declared_type: self.declared_type@,
            rename: literal_view(self.rename),
            is_required: self.is_required,
        }
    }
}

/// The models of a run of descriptors, in order.
pub open spec fn descriptors_view(descriptors: Seq<FieldDescriptor>) -> Seq<FieldDescriptorView> {
    descriptors.map_values(|d: FieldDescriptor| d@)
}

/// The descriptor of one source field: name and type as declared, the
/// rename directive that its annotations carry, and whether it is required.
pub open spec fn described(field: FieldView) -> FieldDescriptorView {
    FieldDescriptorView {
        name: field.name,
        declared_type: field.ty,
        rename: carried(field.attrs, "rename"@),
        is_required: required(field.attrs),
    }
}

/// The descriptors of a declaration: one per field, in declaration order,
/// for a struct with named fields; an error for every other shape.
pub open spec fn extracted(decl: DeclarationView) -> Result<
    Seq<FieldDescriptorView>,
    GenerateError,
> {
    match decl.shape {
        ShapeView::Named(fields) => Ok(fields.map_values(|f: FieldView| described(f))),
        _ => Err(GenerateError::UnsupportedShape),
    }
}

/// The model of an outcome of extraction.
pub open spec fn extraction_view(outcome: Result<Vec<FieldDescriptor>, GenerateError>) -> Result<
    Seq<FieldDescriptorView>,
    GenerateError,
> {
    match outcome {
        Ok(descriptors) => Ok(descriptors_view(descriptors@)),
        Err(e) => Err(e),
    }
}

/// Describes one source field.
pub fn describe(field: &Field) -> (descriptor: FieldDescriptor)
    ensures
        descriptor@ == described(field@),
{
    FieldDescriptor {
        name: field.name.clone(),
        declared_type: field.ty.clone(),
        rename: get_rename(field.attrs.as_slice()),
        is_required: is_required(field.attrs.as_slice()),
    }
}

/// Describes the fields of a declaration, in declaration order.
///
/// Fails for every declaration that is not a struct with named fields, and
/// for no other.
pub fn extract(decl: &Declaration) -> (outcome: Result<Vec<FieldDescriptor>, GenerateError>)
    ensures
        extraction_view(outcome) == extracted(decl@),
{
    match &decl.shape {
        Shape::Named(fields) => {
            let ghost model = fields_view(fields@);
            let mut descriptors: Vec<FieldDescriptor> = Vec::new();
            let mut i: usize = 0;
            while i < fields.len()
                invariant
                    i <= fields.len(),
                    model == fields_view(fields@),
                    descriptors.len() == i,
                    forall|j: int|
                        0 <= j < i ==> (#[trigger] descriptors[j])@ == described(model[j]),
                decreases fields.len() - i,
            {
                descriptors.push(describe(&fields[i]));
                i += 1;
            }
            assert(descriptors_view(descriptors@) =~= model.map_values(
                |f: FieldView| described(f),
            ));
            Ok(descriptors)
        },
        _ => Err(GenerateError::UnsupportedShape),
    }
}

/// Extraction succeeds for every declaration with named fields, with one
/// descriptor per field; the descriptors stand in declaration order, each
/// with the name and the type of its field.
pub proof fn extraction_keeps_fields(decl: DeclarationView, i: int)
    requires
        decl.shape is Named,
        0 <= i < decl.shape->Named_0.len(),
    ensures
        extracted(decl) is Ok,
        extracted(decl)->Ok_0.len() == decl.shape->Named_0.len(),
        extracted(decl)->Ok_0[i].name == decl.shape->Named_0[i].name,
        extracted(decl)->Ok_0[i].declared_type == decl.shape->Named_0[i].ty,
{
}

/// A descriptor says required exactly when the field carries the marker.
pub proof fn extraction_classifies_by_marker(decl: DeclarationView, i: int)
    requires
        decl.shape is Named,
        0 <= i < decl.shape->Named_0.len(),
    ensures
        extracted(decl)->Ok_0[i].is_required == required(decl.shape->Named_0[i].attrs),
{
}

} // verus!
