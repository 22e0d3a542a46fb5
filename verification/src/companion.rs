//! The companion type: the partial-update counterpart that is generated for
//! one declaration, and the rules by which it is put together.

use vstd::prelude::*;
use crate::annotation::{carried, get_rename_all, required};
use crate::declaration::{Declaration, DeclarationView};
use crate::extract::{
    FieldDescriptor, FieldDescriptorView, GenerateError, descriptors_view, extract, extracted,
};
use crate::literal::{StringLiteral, StringLiteralView, literal_view};
use crate::text::same_text;

verus! {

/// How a generated field stores its value.
pub enum FieldType {
    /// The declared type itself.
    Plain(String),
    /// The declared type inside an optional container.
    Optional(String),
}

/// The model of a [`FieldType`].
pub enum FieldTypeView {
    Plain(Seq<char>),
    Optional(Seq<char>),
}

impl View for FieldType {
    type V = FieldTypeView;

    open spec fn view(&self) -> FieldTypeView {
        match self {
            FieldType::Plain(ty) => FieldTypeView::Plain(ty@),
            FieldType::Optional(ty) => FieldTypeView::Optional(ty@),
        }
    }
}

impl FieldTypeView {
    /// The type that the source field was declared with.
    pub open spec fn declared(self) -> Seq<char> {
        match self {
            FieldTypeView::Plain(ty) => ty,
            FieldTypeView::Optional(ty) => ty,
        }
    }
}

impl FieldType {
    /// The type that the source field was declared with.
    pub fn declared(&self) -> (ty: &String)
        ensures
            ty@ == self@.declared(),
    {
        match self {
            FieldType::Plain(ty) => ty,
            FieldType::Optional(ty) => ty,
        }
    }

    /// Whether the declared type is wrapped in an optional container.
    pub fn is_optional(&self) -> (wrapped: bool)
        ensures
            wrapped == (self@ is Optional),
    {
        match self {
            FieldType::Plain(_) => false,
            FieldType::Optional(_) => true,
        }
    }
}

/// One field of a companion type.
pub struct GeneratedField {
    /// The name of the source field, unchanged.
    pub name: String,
    pub ty: FieldType,
    /// The rename directive carried over from the source field.
    pub rename: Option<StringLiteral>,
    /// Whether the field is left out of a document while it is absent.
    pub omit_if_absent: bool,
}

/// The model of a [`GeneratedField`].
pub struct GeneratedFieldView {
    pub name: Seq<char>,
    pub ty: FieldTypeView,
    pub rename: Option<StringLiteralView>,
    pub omit_if_absent: bool,
}

impl View for GeneratedField {
    type V = GeneratedFieldView;

    open spec fn view(&self) -> GeneratedFieldView {
        GeneratedFieldView {
            name: self.name@,
            ty: self.ty@,
            rename: literal_view(self.rename),
            omit_if_absent: self.omit_if_absent,
        }
    }
}

impl GeneratedFieldView {
    /// A field omits itself while absent exactly when it is optional.
    pub open spec fn well_formed(self) -> bool {
        self.omit_if_absent == (self.ty is Optional)
    }
}

/// The models of a run of generated fields, in order.
pub open spec fn generated_fields_view(fields: Seq<GeneratedField>) -> Seq<GeneratedFieldView> {
    fields.map_values(|f: GeneratedField| f@)
}

/// The companion type of one declaration.
pub struct CompanionType {
    /// The name of the companion type.
    pub name: String,
    /// The name of the declaration it was generated for.
    pub source: String,
    /// The casing policy carried over from the declaration.
    pub rename_all: Option<StringLiteral>,
    /// The generated fields, in the order of the source fields.
    pub fields: Vec<GeneratedField>,
}

/// The model of a [`CompanionType`].
pub struct CompanionTypeView {
    pub name: Seq<char>,
    pub source: Seq<char>,
    pub rename_all: Option<StringLiteralView>,
    pub fields: Seq<GeneratedFieldView>,
}

impl View for CompanionType {
    type V = CompanionTypeView;

    open spec fn view(&self) -> CompanionTypeView {
        CompanionTypeView {
            name: self.name@,
            source: self.source@,
            rename_all: literal_view(self.rename_all),
            fields: generated_fields_view(self.fields@),
        }
    }
}

impl CompanionTypeView {
    /// The name derives from the source's, and every field is well formed.
    pub open spec fn well_formed(self) -> bool {
        &&& self.name == companion_name(self.source)
        &&& forall|i: int| 0 <= i < self.fields.len() ==> (#[trigger] self.fields[i]).well_formed()
    }
}

impl CompanionType {
    /// Whether the type is well formed, as every generated type is.
    pub fn is_well_formed(&self) -> (well_formed: bool)
        ensures
            well_formed == self@.well_formed(),
    {
        let mut name = "New".to_owned();
        name.append(self.source.as_str());
        if !same_text(self.name.as_str(), name.as_str()) {
            return false;
        }
        let ghost model = self@.fields;
        let mut i: usize = 0;
        while i < self.fields.len()
            invariant
                i <= self.fields.len(),
                model == generated_fields_view(self.fields@),
                forall|j: int| 0 <= j < i ==> (#[trigger] model[j]).well_formed(),
            decreases self.fields.len() - i,
        {
            if self.fields[i].omit_if_absent != self.fields[i].ty.is_optional() {
                assert(!self@.fields[i as int].well_formed());
                return false;
            }
            assert(model[i as int].well_formed());
            i += 1;
        }
        true
    }
}

/// The name of the companion of the declaration named `source`.
pub open spec fn companion_name(source: Seq<char>) -> Seq<char> {
    "New"@ + source
}

/// The generated field of one described field.
///
/// Name and declared type are kept. A required field keeps its type; any
/// other has it wrapped, and omits itself while absent. The rename directive
/// is carried over either way.
pub open spec fn generated_field(field: FieldDescriptorView) -> GeneratedFieldView {
    GeneratedFieldView {
        name: field.name,
        ty: if field.is_required {
            FieldTypeView::Plain(field.declared_type)
        } else {
            FieldTypeView::Optional(field.declared_type)
        },
        rename: field.rename,
        omit_if_absent: !field.is_required,
    }
}

/// The companion type that is assembled for the declaration named `source`
/// from its described fields and its casing policy.
pub open spec fn assembled(
    source: Seq<char>,
    fields: Seq<FieldDescriptorView>,
    rename_all: Option<StringLiteralView>,
) -> CompanionTypeView {
    CompanionTypeView {
        name: companion_name(source),
        source,
        rename_all,
        fields: fields.map_values(|f: FieldDescriptorView| generated_field(f)),
    }
}

/// What generation makes of a declaration: the companion type of a struct
/// with named fields, and an error for every other shape.
pub open spec fn generated(decl: DeclarationView) -> Result<CompanionTypeView, GenerateError> {
    match extracted(decl) {
        Ok(fields) => Ok(assembled(decl.name, fields, carried(decl.attrs, "rename_all"@))),
        Err(e) => Err(e),
    }
}

/// The model of an outcome of generation.
pub open spec fn outcome_view(outcome: Result<CompanionType, GenerateError>) -> Result<
    CompanionTypeView,
    GenerateError,
> {
    match outcome {
        Ok(companion) => Ok(companion@),
        Err(e) => Err(e),
    }
}

/// Builds the generated field of one described field.
pub fn generate_field(field: &FieldDescriptor) -> (out: GeneratedField)
    ensures
        out@ == generated_field(field@),
{
    let ty = if field.is_required {
        FieldType::Plain(field.declared_type.clone())
    } else {
        FieldType::Optional(field.declared_type.clone())
    };
    let rename = match &field.rename {
        Some(lit) => Some(lit.clone()),
        None => None,
    };
    GeneratedField { name: field.name.clone(), ty, rename, omit_if_absent: !field.is_required }
}

/// Assembles the companion type of the declaration named `source` from its
/// described fields and its casing policy.
pub fn assemble(source: &str, fields: &[FieldDescriptor], rename_all: Option<StringLiteral>) -> (
    companion: CompanionType)
    ensures
        companion@ == assembled(source@, descriptors_view(fields@), literal_view(rename_all)),
        companion@.well_formed(),
{
    let ghost model = descriptors_view(fields@);
    let mut generated_fields: Vec<GeneratedField> = Vec::new();
    let mut i: usize = 0;
    while i < fields.len()
        invariant
            i <= fields.len(),
            model == descriptors_view(fields@),
            generated_fields.len() == i,
            forall|j: int|
                0 <= j < i ==> (#[trigger] generated_fields[j])@ == generated_field(model[j]),
        decreases fields.len() - i,
    {
        generated_fields.push(generate_field(&fields[i]));
        i += 1;
    }
    let mut name = "New".to_owned();
    name.append(source);
    let companion = CompanionType {
        name,
        source: source.to_owned(),
        rename_all,
        fields: generated_fields,
    };
    assert(companion@.fields =~= model.map_values(|f: FieldDescriptorView| generated_field(f)));
    companion
}

/// Generates the companion type of a declaration.
///
/// Fails for every declaration that is not a struct with named fields, and
/// for no other.
pub fn synthesize(decl: &Declaration) -> (outcome: Result<CompanionType, GenerateError>)
    ensures
        outcome_view(outcome) == generated(decl@),
        outcome matches Ok(companion) ==> companion@.well_formed(),
{
    match extract(decl) {
        Ok(fields) => Ok(
            assemble(decl.name.as_str(), fields.as_slice(), get_rename_all(decl.attrs.as_slice())),
        ),
        Err(e) => Err(e),
    }
}

/// Generation succeeds for every declaration with named fields, and the
/// companion type has as many fields as the declaration.
pub proof fn generation_keeps_field_count(decl: DeclarationView)
    requires
        decl.shape is Named,
    ensures
        generated(decl) is Ok,
        generated(decl)->Ok_0.fields.len() == decl.shape->Named_0.len(),
{
}

/// Generation fails for every declaration without a list of named fields.
pub proof fn generation_rejects_other_shapes(decl: DeclarationView)
    requires
        !(decl.shape is Named),
    ensures
        generated(decl) == Err::<CompanionTypeView, GenerateError>(GenerateError::UnsupportedShape),
{
}

/// Generated fields stand in the order of the source fields, each with the
/// name and the declared type of its source field.
pub proof fn generation_keeps_fields_in_order(decl: DeclarationView, i: int)
    requires
        decl.shape is Named,
        0 <= i < decl.shape->Named_0.len(),
    ensures
        generated(decl)->Ok_0.fields[i].name == decl.shape->Named_0[i].name,
        generated(decl)->Ok_0.fields[i].ty.declared() == decl.shape->Named_0[i].ty,
{
}

/// A required field is stored with its declared type, never wrapped; every
/// other field is wrapped in an optional container.
pub proof fn generation_wraps_unless_required(decl: DeclarationView, i: int)
    requires
        decl.shape is Named,
        0 <= i < decl.shape->Named_0.len(),
    ensures
        required(decl.shape->Named_0[i].attrs) ==> generated(decl)->Ok_0.fields[i].ty
            == FieldTypeView::Plain(decl.shape->Named_0[i].ty),
        !required(decl.shape->Named_0[i].attrs) ==> generated(decl)->Ok_0.fields[i].ty
            == FieldTypeView::Optional(decl.shape->Named_0[i].ty),
{
}

/// A generated field omits itself while absent exactly when its source
/// field is not required.
pub proof fn generation_omits_unless_required(decl: DeclarationView, i: int)
    requires
        decl.shape is Named,
        0 <= i < decl.shape->Named_0.len(),
    ensures
        generated(decl)->Ok_0.fields[i].omit_if_absent == !required(
            decl.shape->Named_0[i].attrs,
        ),
{
}

/// Every generated companion type is well formed.
pub proof fn generation_is_well_formed(decl: DeclarationView)
    requires
        decl.shape is Named,
    ensures
        generated(decl)->Ok_0.well_formed(),
{
}

/// The directives are carried over: the rename of each field, and the casing
/// policy of the declaration.
pub proof fn generation_carries_directives(decl: DeclarationView, i: int)
    requires
        decl.shape is Named,
        0 <= i < decl.shape->Named_0.len(),
    ensures
        generated(decl)->Ok_0.rename_all == carried(decl.attrs, "rename_all"@),
        generated(decl)->Ok_0.fields[i].rename == carried(
            decl.shape->Named_0[i].attrs,
            "rename"@,
        ),
{
}

/// Two declarations have companions of the same name only if they have the
/// same name themselves.
pub proof fn companion_name_is_unique(a: Seq<char>, b: Seq<char>)
    requires
        companion_name(a) == companion_name(b),
    ensures
        a == b,
{
    let prefix = "New"@;
    assert(a =~= (prefix + a).subrange(prefix.len() as int, (prefix + a).len() as int));
    assert(b =~= (prefix + b).subrange(prefix.len() as int, (prefix + b).len() as int));
}

} // verus!
