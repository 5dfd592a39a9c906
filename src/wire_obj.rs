//! Splitting a tagged union into one record type per variant.
//!
//! A type definition is held as plain values: names, types and attributes as
//! source text. [`derive_wire_obj`] turns each variant of a union into a record
//! of its own with the same name and fields, every field public, carrying the
//! union's attributes; [`StructDef::to_source`] writes such a record as Rust
//! source.

use vstd::prelude::*;

verus! {

/// A field of a record or of a union variant.
#[derive(Debug, Clone)]
pub struct FieldDef {
    /// The field's attributes, each as written (`#[serde(default)]`).
    pub attrs: Vec<String>,
    /// Whether the field is declared `pub`.
    pub public: bool,
    /// The field's name; `None` for a positional field.
    pub name: Option<String>,
    /// The field's type, as written.
    pub ty: String,
}

/// The fields of a record or of a union variant.
#[derive(Debug, Clone)]
pub enum Fields {
    /// Named fields: `{ a: i32, b: String }`.
    Named(Vec<FieldDef>),
    /// Positional fields: `(i32, i32)`.
    Unnamed(Vec<FieldDef>),
    /// No fields.
    Unit,
}

/// A variant of a tagged union.
#[derive(Debug, Clone)]
pub struct VariantDef {
    /// The variant's name.
    pub name: String,
    /// The variant's fields.
    pub fields: Fields,
}

/// The body of a type definition.
#[derive(Debug, Clone)]
pub enum Body {
    /// A tagged union (`enum`) and its variants.
    Enum(Vec<VariantDef>),
    /// A record (`struct`).
    Struct(Fields),
    /// An untagged union (`union`) and its fields.
    Union(Vec<FieldDef>),
}

/// A type definition that the transform is applied to.
#[derive(Debug, Clone)]
pub struct TypeDef {
    /// The attributes of the definition, each as written (`#[derive(Debug)]`).
    pub attrs: Vec<String>,
    /// The type's name.
    pub name: String,
    /// Whether the type declares generic parameters (`<...>`).
    pub has_generics: bool,
    /// The type's body.
    pub body: Body,
}

/// A record type that the transform produces.
#[derive(Debug, Clone)]
pub struct StructDef {
    /// The attributes of the record, each as written.
    pub attrs: Vec<String>,
    /// The record's name.
    pub name: String,
    /// The record's fields.
    pub fields: Fields,
}

/// Why a definition cannot be split.
#[derive(Debug, Clone, Copy, PartialEq, Eq, Hash, Structural)]
pub enum WireObjError {
    /// Only tagged unions can be split.
    NotAnEnum,
    /// Unions with type parameters are not supported.
    Generic,
}

/// The value of a [`FieldDef`].
pub struct FieldView {
    pub attrs: Seq<Seq<char>>,
    pub public: bool,
    pub name: Option<Seq<char>>,
    pub ty: Seq<char>,
}

/// The value of a [`Fields`].
pub enum FieldsView {
    Named(Seq<FieldView>),
    Unnamed(Seq<FieldView>),
    Unit,
}

/// The value of a [`VariantDef`].
pub struct VariantView {
    pub name: Seq<char>,
    pub fields: FieldsView,
}

/// The value of a [`Body`].
pub enum BodyView {
    Enum(Seq<VariantView>),
    Struct(FieldsView),
    Union(Seq<FieldView>),
}

/// The value of a [`TypeDef`].
pub struct TypeView {
    pub attrs: Seq<Seq<char>>,
    pub name: Seq<char>,
    pub has_generics: bool,
    pub body: BodyView,
}

/// The value of a [`StructDef`].
pub struct StructView {
    pub attrs: Seq<Seq<char>>,
    pub name: Seq<char>,
    pub fields: FieldsView,
}

/// The texts of a list of strings.
pub open spec fn texts(list: Seq<String>) -> Seq<Seq<char>> {
    list.map_values(|s: String| s@)
}

/// The values of a list of fields.
pub open spec fn field_views(list: Seq<FieldDef>) -> Seq<FieldView> {
    list.map_values(|f: FieldDef| f@)
}

impl View for FieldDef {
    type V = FieldView;

    open spec fn view(&self) -> FieldView {
        FieldView {
            attrs: texts(self.attrs@),
            public: self.public,
            name: match self.name {
                Some(name) => Some(name@),
                None => None,
            },
            ty: self.ty@,
        }
    }
}

impl View for Fields {
    type V = FieldsView;

    open spec fn view(&self) -> FieldsView {
        match self {
            Fields::Named(list) => FieldsView::Named(field_views(list@)),
            Fields::Unnamed(list) => FieldsView::Unnamed(field_views(list@)),
            Fields::Unit => FieldsView::Unit,
        }
    }
}

impl View for VariantDef {
    type V = VariantView;

    open spec fn view(&self) -> VariantView {
        VariantView { name: self.name@, fields: self.fields@ }
    }
}

impl View for Body {
    type V = BodyView;

    open spec fn view(&self) -> BodyView {
        match self {
            Body::Enum(variants) => BodyView::Enum(variants@.map_values(|v: VariantDef| v@)),
            Body::Struct(fields) => BodyView::Struct(fields@),
            Body::Union(fields) => BodyView::Union(field_views(fields@)),
        }
    }
}

impl View for TypeDef {
    type V = TypeView;

    open spec fn view(&self) -> TypeView {
        TypeView {
            attrs: texts(self.attrs@),
            name: self.name@,
            has_generics: self.has_generics,
            body: self.body@,
        }
    }
}

impl View for StructDef {
    type V = StructView;

    open spec fn view(&self) -> StructView {
        StructView { attrs: texts(self.attrs@), name: self.name@, fields: self.fields@ }
    }
}

/// The field, declared `pub`.
pub open spec fn made_public(f: FieldView) -> FieldView {
    FieldView { public: true, ..f }
}

/// The same fields, each declared `pub`.
pub open spec fn public_fields(fields: FieldsView) -> FieldsView {
    match fields {
        FieldsView::Named(list) => FieldsView::Named(list.map_values(|f: FieldView| made_public(f))),
        FieldsView::Unnamed(list) => FieldsView::Unnamed(
            list.map_values(|f: FieldView| made_public(f)),
        ),
        FieldsView::Unit => FieldsView::Unit,
    }
}

/// The record that a variant becomes: the variant's name and fields, every
/// field public, and the union's attributes.
pub open spec fn variant_record(attrs: Seq<Seq<char>>, v: VariantView) -> StructView {
    StructView { attrs, name: v.name, fields: public_fields(v.fields) }
}

/// What splitting a definition gives: one record per variant, in order, for a
/// union without type parameters; otherwise the reason it is refused.
pub open spec fn split(t: TypeView) -> Result<Seq<StructView>, WireObjError> {
    match t.body {
        BodyView::Enum(variants) => if t.has_generics {
            Err(WireObjError::Generic)
        } else {
            Ok(variants.map_values(|v: VariantView| variant_record(t.attrs, v)))
        },
        _ => Err(WireObjError::NotAnEnum),
    }
}

/// A copy of a list of strings.
fn copy_texts(list: &Vec<String>) -> (r: Vec<String>)
    ensures
        texts(r@) == texts(list@),
{
    let mut out: Vec<String> = Vec::new();
    let mut i: usize = 0;
    while i < list.len()
        invariant
            i <= list.len(),
            texts(out@) == texts(list@.subrange(0, i as int)),
        decreases list.len() - i,
    {
        let ghost prev = out@;
        let text = list[i].clone();
        out.push(text);
        proof {
            assert(list@.subrange(0, i + 1) =~= list@.subrange(0, i as int).push(list@[i as int]));
            assert(texts(out@) =~= texts(prev).push(text@));
            assert(texts(list@.subrange(0, i + 1)) =~= texts(list@.subrange(0, i as int)).push(
                list@[i as int]@,
            ));
        }
        i = i + 1;
    }
    assert(list@.subrange(0, list.len() as int) == list@);
    out
}

/// A copy of a field, declared `pub`.
fn public_field(f: &FieldDef) -> (r: FieldDef)
    ensures
        r@ == made_public(f@),
{
    let name = match &f.name {
        Some(name) => Some(name.clone()),
        None => None,
    };
    FieldDef { attrs: copy_texts(&f.attrs), public: true, name, ty: f.ty.clone() }
}

/// Copies of a list of fields, each declared `pub`.
fn public_field_list(list: &Vec<FieldDef>) -> (r: Vec<FieldDef>)
    ensures
        field_views(r@) == field_views(list@).map_values(|f: FieldView| made_public(f)),
{
    let mut out: Vec<FieldDef> = Vec::new();
    let mut i: usize = 0;
    while i < list.len()
        invariant
            i <= list.len(),
            field_views(out@) == field_views(list@.subrange(0, i as int)).map_values(
                |f: FieldView| made_public(f),
            ),
        decreases list.len() - i,
    {
        let ghost prev = out@;
        let field = public_field(&list[i]);
        out.push(field);
        proof {
            let done = list@.subrange(0, i as int);
            assert(list@.subrange(0, i + 1) =~= done.push(list@[i as int]));
            assert(field_views(out@) =~= field_views(prev).push(field@));
            assert(field_views(done.push(list@[i as int])) =~= field_views(done).push(
                list@[i as int]@,
            ));
            assert(field_views(done).push(list@[i as int]@).map_values(
                |f: FieldView| made_public(f),
            ) =~= field_views(done).map_values(|f: FieldView| made_public(f)).push(
                made_public(list@[i as int]@),
            ));
        }
        i = i + 1;
    }
    assert(list@.subrange(0, list.len() as int) == list@);
    out
}

/// The fields of a variant as the fields of a record: the same fields, public.
fn record_fields(fields: &Fields) -> (r: Fields)
    ensures
        r@ == public_fields(fields@),
{
    match fields {
        Fields::Named(list) => Fields::Named(public_field_list(list)),
        Fields::Unnamed(list) => Fields::Unnamed(public_field_list(list)),
        Fields::Unit => Fields::Unit,
    }
}

/// Splits a tagged union into one record type per variant, in the order of the
/// variants. Each record has the variant's name and fields, every field made
/// public, and carries the union's attributes (its derives among them).
///
/// A definition that is not a tagged union is refused with
/// [`WireObjError::NotAnEnum`], a union with type parameters with
/// [`WireObjError::Generic`].
pub fn derive_wire_obj(input: &TypeDef) -> (r: Result<Vec<StructDef>, WireObjError>)
    ensures
        match r {
            Ok(records) => split(input@) == Ok::<Seq<StructView>, WireObjError>(
                records@.map_values(|s: StructDef| s@),
            ),
            Err(e) => split(input@) == Err::<Seq<StructView>, WireObjError>(e),
        },
{
    let variants = match &input.body {
        Body::Enum(variants) => variants,
        _ => {
            return Err(WireObjError::NotAnEnum);
        },
    };
    if input.has_generics {
        return Err(WireObjError::Generic);
    }
    let ghost attrs = texts(input.attrs@);
    let ghost variant_views = variants@.map_values(|v: VariantDef| v@);
    let mut records: Vec<StructDef> = Vec::new();
    let mut i: usize = 0;
    while i < variants.len()
        invariant
            i <= variants.len(),
            input@.body == BodyView::Enum(variant_views),
            attrs == texts(input.attrs@),
            variant_views == variants@.map_values(|v: VariantDef| v@),
            records@.map_values(|s: StructDef| s@) == variant_views.subrange(0, i as int).map_values(
                |v: VariantView| variant_record(attrs, v),
            ),
        decreases variants.len() - i,
    {
        let variant = &variants[i];
        let record = StructDef {
            attrs: copy_texts(&input.attrs),
            name: variant.name.clone(),
            fields: record_fields(&variant.fields),
        };
        let ghost prev = records@;
        records.push(record);
        proof {
            let done = variant_views.subrange(0, i as int);
            assert(variant_views.subrange(0, i + 1) =~= done.push(variant_views[i as int]));
            assert(records@.map_values(|s: StructDef| s@) =~= prev.map_values(
                |s: StructDef| s@,
            ).push(record@));
            assert(done.push(variant_views[i as int]).map_values(
                |v: VariantView| variant_record(attrs, v),
            ) =~= done.map_values(|v: VariantView| variant_record(attrs, v)).push(
                variant_record(attrs, variant_views[i as int]),
            ));
        }
        i = i + 1;
    }
    assert(variant_views.subrange(0, variants.len() as int) == variant_views);
    Ok(records)
}

/// Attributes as source lines, each followed by a line break.
pub open spec fn attr_lines(attrs: Seq<Seq<char>>) -> Seq<char>
    decreases attrs.len(),
{
    if attrs.len() == 0 {
        Seq::empty()
    } else {
        attr_lines(attrs.drop_last()) + attrs.last() + "\n"@
    }
}

/// Attributes written before a field, each followed by a space.
pub open spec fn attr_words(attrs: Seq<Seq<char>>) -> Seq<char>
    decreases attrs.len(),
{
    if attrs.len() == 0 {
        Seq::empty()
    } else {
        attr_words(attrs.drop_last()) + attrs.last() + " "@
    }
}

/// A field as source text: its attributes, `pub ` where it is public, its
/// name and a colon where it has a name, and its type.
pub open spec fn field_text(f: FieldView) -> Seq<char> {
    attr_words(f.attrs) + (if f.public {
        "pub "@
    } else {
        Seq::empty()
    }) + match f.name {
        Some(name) => name + ": "@,
        None => Seq::empty(),
    } + f.ty
}

/// Fields as source text, separated by `, `.
pub open spec fn field_list_text(fields: Seq<FieldView>) -> Seq<char>
    decreases fields.len(),
{
    if fields.len() == 0 {
        Seq::empty()
    } else if fields.len() == 1 {
        field_text(fields[0])
    } else {
        field_list_text(fields.drop_last()) + ", "@ + field_text(fields.last())
    }
}

/// A record as Rust source: its attributes, one per line, then
/// `pub struct Name { a: A, b: B }`, `pub struct Name(A, B);` or
/// `pub struct Name;`, and a line break.
pub open spec fn source_text(s: StructView) -> Seq<char> {
    attr_lines(s.attrs) + "pub struct "@ + s.name + match s.fields {
        FieldsView::Named(list) => " { "@ + field_list_text(list) + " }\n"@,
        FieldsView::Unnamed(list) => "("@ + field_list_text(list) + ");\n"@,
        FieldsView::Unit => ";\n"@,
    }
}

/// Writes a field as source text.
fn field_source(f: &FieldDef) -> (r: String)
    ensures
        r@ == field_text(f@),
{
    let mut out = String::new();
    let mut i: usize = 0;
    while i < f.attrs.len()
        invariant
            i <= f.attrs.len(),
            out@ == attr_words(texts(f.attrs@).subrange(0, i as int)),
        decreases f.attrs.len() - i,
    {
        let ghost done = texts(f.attrs@).subrange(0, i as int);
        out.append(f.attrs[i].as_str());
        out.append(" ");
        proof {
            assert(texts(f.attrs@).subrange(0, i + 1).drop_last() =~= done);
        }
        i = i + 1;
    }
    assert(texts(f.attrs@).subrange(0, f.attrs.len() as int) =~= texts(f.attrs@));
    if f.public {
        out.append("pub ");
    }
    match &f.name {
        Some(name) => {
            out.append(name.as_str());
            out.append(": ");
        },
        None => {},
    }
    out.append(f.ty.as_str());
    out
}

/// Appends fields as source text, separated by `, `.
fn append_field_list(out: &mut String, fields: &Vec<FieldDef>)
    ensures
        final(out)@ == old(out)@ + field_list_text(field_views(fields@)),
{
    let ghost start = out@;
    let mut i: usize = 0;
    while i < fields.len()
        invariant
            i <= fields.len(),
            out@ == start + field_list_text(field_views(fields@).subrange(0, i as int)),
        decreases fields.len() - i,
    {
        let ghost done = field_views(fields@).subrange(0, i as int);
        if i > 0 {
            out.append(", ");
        }
        let text = field_source(&fields[i]);
        out.append(text.as_str());
        proof {
            let next = field_views(fields@).subrange(0, i + 1);
            assert(next.drop_last() =~= done);
            assert(next.last() == fields@[i as int]@);
            if i == 0 {
                assert(next.len() == 1);
                assert(out@ =~= start + field_list_text(next));
            } else {
                assert(out@ =~= start + field_list_text(next));
            }
        }
        i = i + 1;
    }
    assert(field_views(fields@).subrange(0, fields.len() as int) =~= field_views(fields@));
}

impl StructDef {
    /// The record as Rust source: its attributes, one per line, then its
    /// declaration, `pub struct Name { a: A }`, `pub struct Name(A);` or
    /// `pub struct Name;`.
    pub fn to_source(&self) -> (r: String)
        ensures
            r@ == source_text(self@),
    {
        let mut out = String::new();
        let mut i: usize = 0;
        while i < self.attrs.len()
            invariant
                i <= self.attrs.len(),
                out@ == attr_lines(texts(self.attrs@).subrange(0, i as int)),
            decreases self.attrs.len() - i,
        {
            let ghost done = texts(self.attrs@).subrange(0, i as int);
            out.append(self.attrs[i].as_str());
            out.append("\n");
            proof {
                assert(texts(self.attrs@).subrange(0, i + 1).drop_last() =~= done);
            }
            i = i + 1;
        }
        assert(texts(self.attrs@).subrange(0, self.attrs.len() as int) =~= texts(self.attrs@));
        out.append("pub struct ");
        out.append(self.name.as_str());
        match &self.fields {
            Fields::Named(list) => {
                out.append(" { ");
                append_field_list(&mut out, list);
                out.append(" }\n");
            },
            Fields::Unnamed(list) => {
                out.append("(");
                append_field_list(&mut out, list);
                out.append(");\n");
            },
            Fields::Unit => {
                out.append(";\n");
            },
        }
        out
    }
}

/// Records as Rust source, one after the other.
pub open spec fn sources_text(records: Seq<StructView>) -> Seq<char>
    decreases records.len(),
{
    if records.len() == 0 {
        Seq::empty()
    } else {
        sources_text(records.drop_last()) + source_text(records.last())
    }
}

/// Splits a tagged union as [`derive_wire_obj`] does and writes the records as
/// Rust source, in the order of the variants.
pub fn wire_obj_source(input: &TypeDef) -> (r: Result<String, WireObjError>)
    ensures
        match split(input@) {
            Ok(records) => r matches Ok(text) && text@ == sources_text(records),
            Err(e) => r == Err::<String, WireObjError>(e),
        },
{
    let records = match derive_wire_obj(input) {
        Ok(records) => records,
        Err(e) => {
            return Err(e);
        },
    };
    let ghost views = records@.map_values(|s: StructDef| s@);
    let mut out = String::new();
    let mut i: usize = 0;
    while i < records.len()
        invariant
            i <= records.len(),
            views == records@.map_values(|s: StructDef| s@),
            out@ == sources_text(views.subrange(0, i as int)),
        decreases records.len() - i,
    {
        let ghost done = views.subrange(0, i as int);
        let text = records[i].to_source();
        out.append(text.as_str());
        proof {
            assert(views.subrange(0, i + 1).drop_last() =~= done);
        }
        i = i + 1;
    }
    assert(views.subrange(0, records.len() as int) =~= views);
    Ok(out)
}

impl WireObjError {
    /// A message that says why the definition was refused.
    pub fn message(&self) -> (r: &'static str)
        ensures
            r@ == match self {
                WireObjError::NotAnEnum => "wire only works on enums"@,
                WireObjError::Generic => "wire does not support generics"@,
            },
    {
        match self {
            WireObjError::NotAnEnum => "wire only works on enums",
            WireObjError::Generic => "wire does not support generics",
        }
    }
}

} // verus!
