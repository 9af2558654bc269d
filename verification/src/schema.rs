//! The declarative data model a schema compiler run starts from: a named
//! type definition — a record of fields or a tagged union of variants —
//! together with the raw attribute metadata its patterns are declared in.
use vstd::prelude::*;

verus! {

/// The target type a captured piece of text is converted to.
#[derive(Clone, Copy, PartialEq, Eq, Structural)]
pub enum FieldType {
    /// The capture is kept as text.
    Text,
    /// The capture is read as a signed decimal integer.
    Integer,
}

/// A named field with its declared target type.
pub struct Field {
    pub name: String,
    pub ty: FieldType,
}

pub struct FieldView {
    pub name: Seq<char>,
    pub ty: FieldType,
}

impl View for Field {
    type V = FieldView;

    open spec fn view(&self) -> FieldView {
        FieldView { name: self.name@, ty: self.ty }
    }
}

/// The view of a field list, taken field by field.
pub open spec fn fields_view(fs: Seq<Field>) -> Seq<FieldView> {
    fs.map_values(|f: Field| f@)
}

/// A literal carried by an attribute argument.
pub enum MetaValue {
    Str(String),
    Other,
}

pub enum MetaValueView {
    Str(Seq<char>),
    Other,
}

impl View for MetaValue {
    type V = MetaValueView;

    open spec fn view(&self) -> MetaValueView {
        match self {
            MetaValue::Str(s) => MetaValueView::Str(s@),
            MetaValue::Other => MetaValueView::Other,
        }
    }
}

/// One argument inside an attribute list: a `key = value` pair, or any other
/// form the extractor passes over.
pub enum MetaItem {
    NameValue { key: String, value: MetaValue },
    Other,
}

pub enum MetaItemView {
    NameValue { key: Seq<char>, value: MetaValueView },
    Other,
}

impl View for MetaItem {
    type V = MetaItemView;

    open spec fn view(&self) -> MetaItemView {
        match self {
            MetaItem::NameValue { key, value } => MetaItemView::NameValue {
                key: key@,
                value: value@,
            },
            MetaItem::Other => MetaItemView::Other,
        }
    }
}

/// A named attribute list, such as `recap(regex = "...")`.
pub struct AttrList {
    pub name: String,
    pub items: Vec<MetaItem>,
}

pub struct AttrListView {
    pub name: Seq<char>,
    pub items: Seq<MetaItemView>,
}

impl View for AttrList {
    type V = AttrListView;

    open spec fn view(&self) -> AttrListView {
        AttrListView { name: self.name@, items: self.items@.map_values(|m: MetaItem| m@) }
    }
}

pub open spec fn attrs_view(attrs: Seq<AttrList>) -> Seq<AttrListView> {
    attrs.map_values(|a: AttrList| a@)
}

/// The structural form of a union variant.
pub enum Shape {
    /// An ordered list of named fields.
    NamedFields(Vec<Field>),
    /// One unnamed value of the given target type.
    SingleValue(FieldType),
    /// No data: the variant's pattern is only a boolean test.
    Unit,
}

pub enum ShapeView {
    NamedFields(Seq<FieldView>),
    SingleValue(FieldType),
    Unit,
}

impl View for Shape {
    type V = ShapeView;

    open spec fn view(&self) -> ShapeView {
        match self {
            Shape::NamedFields(fs) => ShapeView::NamedFields(fields_view(fs@)),
            Shape::SingleValue(ty) => ShapeView::SingleValue(*ty),
            Shape::Unit => ShapeView::Unit,
        }
    }
}

/// A union variant: its name, its own attribute metadata, and its shape.
pub struct Variant {
    pub name: String,
    pub attrs: Vec<AttrList>,
    pub shape: Shape,
}

pub struct VariantView {
    pub name: Seq<char>,
    pub attrs: Seq<AttrListView>,
    pub shape: ShapeView,
}

impl View for Variant {
    type V = VariantView;

    open spec fn view(&self) -> VariantView {
        VariantView { name: self.name@, attrs: attrs_view(self.attrs@), shape: self.shape@ }
    }
}

pub open spec fn variants_view(vs: Seq<Variant>) -> Seq<VariantView> {
    vs.map_values(|v: Variant| v@)
}

/// The field list of a record schema. Only the named form can be compiled;
/// the others are carried so that validation can reject them.
pub enum RecordFields {
    Named(Vec<Field>),
    Positional(usize),
    Unit,
}

pub enum RecordFieldsView {
    Named(Seq<FieldView>),
    Positional(usize),
    Unit,
}

impl View for RecordFields {
    type V = RecordFieldsView;

    open spec fn view(&self) -> RecordFieldsView {
        match self {
            RecordFields::Named(fs) => RecordFieldsView::Named(fields_view(fs@)),
            RecordFields::Positional(n) => RecordFieldsView::Positional(*n),
            RecordFields::Unit => RecordFieldsView::Unit,
        }
    }
}

/// Whether the schema is a single record or a tagged union.
pub enum SchemaKind {
    Record(RecordFields),
    Union(Vec<Variant>),
}

pub enum SchemaKindView {
    Record(RecordFieldsView),
    Union(Seq<VariantView>),
}

impl View for SchemaKind {
    type V = SchemaKindView;

    open spec fn view(&self) -> SchemaKindView {
        match self {
            SchemaKind::Record(rf) => SchemaKindView::Record(rf@),
            SchemaKind::Union(vs) => SchemaKindView::Union(variants_view(vs@)),
        }
    }
}

/// A schema: the immutable input of one compiler pass.
pub struct Schema {
    /// The declared type's name, used in diagnostics.
    pub name: String,
    /// The schema-level attribute metadata (a record's pattern lives here).
    pub attrs: Vec<AttrList>,
    pub kind: SchemaKind,
    /// Whether the declared type borrows from its input. A borrowing schema
    /// is given no conversion entry point from an owned string.
    pub borrows: bool,
}

pub struct SchemaView {
    pub name: Seq<char>,
    pub attrs: Seq<AttrListView>,
    pub kind: SchemaKindView,
    pub borrows: bool,
}

impl View for Schema {
    type V = SchemaView;

    open spec fn view(&self) -> SchemaView {
        SchemaView {
            name: self.name@,
            attrs: attrs_view(self.attrs@),
            kind: self.kind@,
            borrows: self.borrows,
        }
    }
}

} // verus!
