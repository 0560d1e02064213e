//! The input model of the code generator that derives the algebra for user types: what
//! the generator reads from a type declaration, as plain values, and the checks it makes.
use vstd::prelude::*;
use vstd::pervasive::unreached;
use vstd::string::StringExecFns;

verus! {

/// What the generator refuses in a type declaration.
#[derive(Clone, Copy, Debug, PartialEq, Eq, Structural)]
pub enum DeriveError {
    /// A field was addressed by name but is positional.
    ExpectedNamedField,
    /// A field was addressed by position but is named.
    ExpectedPositionalField,
    /// Named and positional fields stand in one struct or variant.
    MixedFields,
}

pub type DeriveResult<T> = Result<T, DeriveError>;

/// A field as declared: its name, if it has one, the text of its type, and whether it is
/// marked to carry no delta.
pub struct FieldInput {
    pub ident: Option<String>,
    pub ty: String,
    pub ignore_field: bool,
}

/// An enum variant as declared.
pub struct VariantInput {
    pub ident: String,
    pub fields: Vec<FieldInput>,
}

/// A generic parameter as declared: its full text, and its name where it is a type
/// parameter.
pub struct GenericInput {
    pub decl: String,
    pub type_ident: Option<String>,
}

/// The body of a declaration.
pub enum DataInput {
    Struct(Vec<FieldInput>),
    Enum(Vec<VariantInput>),
    Union,
}

/// A type declaration as the generator reads it.
pub struct DeclInput {
    pub ident: String,
    pub generics: Vec<GenericInput>,
    pub where_clause: Option<Vec<String>>,
    pub data: DataInput,
}

/// How the fields of a struct or variant are addressed.
#[derive(Clone, Copy, Debug, PartialEq, Eq, Structural)]
pub enum StructVariant {
    /// Fields with names, as in `struct Foo { bar: u8 }`.
    NamedStruct,
    /// Positional fields, as in `struct Baz(String);`.
    TupleStruct,
    /// No fields at all, as in `struct Quux;`.
    UnitStruct,
}

/// A field of a struct or of an enum variant.
pub enum FieldDesc {
    Named { name: String, ty: String, ignore_field: bool },
    Positional { position: usize, ty: String, ignore_field: bool },
}

/// An enum variant: how its fields are addressed, its name and its fields.
pub struct EnumVariant {
    pub struct_variant: StructVariant,
    pub name: String,
    pub fields: Vec<FieldDesc>,
}

/// A description of the input type.
pub enum InputType {
    Enum {
        ty_name: String,
        delta_type_name: String,
        enum_variants: Vec<EnumVariant>,
        type_param_decls: Vec<String>,
        type_params: Vec<String>,
        where_clause: Vec<String>,
    },
    Struct {
        struct_variant: StructVariant,
        ty_name: String,
        delta_type_name: String,
        fields: Vec<FieldDesc>,
        type_param_decls: Vec<String>,
        type_params: Vec<String>,
        where_clause: Vec<String>,
    },
    /// Unions are not supported.
    Union,
}

/// `d` describes the field `f`, declared at position `i`.
pub open spec fn describes(d: FieldDesc, f: FieldInput, i: int) -> bool {
    match f.ident {
        Some(n) => d matches FieldDesc::Named { name, ty, ignore_field } && name@ == n@ && ty@
            == f.ty@ && ignore_field == f.ignore_field,
        None => d matches FieldDesc::Positional { position, ty, ignore_field } && position == i
            && ty@ == f.ty@ && ignore_field == f.ignore_field,
    }
}

/// `ds` describes the fields `fs`, one for one and in order.
pub open spec fn describes_all(ds: Seq<FieldDesc>, fs: Seq<FieldInput>) -> bool {
    &&& ds.len() == fs.len()
    &&& forall|i: int| 0 <= i < fs.len() ==> #[trigger] describes(ds[i], fs[i], i)
}

/// All fields have names, or none has.
pub open spec fn consistent(fs: Seq<FieldInput>) -> bool {
    (forall|i: int| 0 <= i < fs.len() ==> (#[trigger] fs[i]).ident is Some) || (forall|i: int|
        0 <= i < fs.len() ==> (#[trigger] fs[i]).ident is None)
}

/// How fields `fs` are addressed: by the last of them, or not at all.
pub open spec fn addressing(fs: Seq<FieldInput>) -> StructVariant {
    if fs.len() == 0 {
        StructVariant::UnitStruct
    } else if fs.last().ident is Some {
        StructVariant::NamedStruct
    } else {
        StructVariant::TupleStruct
    }
}

/// `v` describes the variant `vi`.
pub open spec fn describes_variant(v: EnumVariant, vi: VariantInput) -> bool {
    &&& v.name@ == vi.ident@
    &&& v.struct_variant == addressing(vi.fields@)
    &&& describes_all(v.fields@, vi.fields@)
}

/// The names of the type parameters among `gs`, in order.
pub open spec fn type_param_names(gs: Seq<GenericInput>) -> Seq<Seq<char>>
    decreases gs.len(),
{
    if gs.len() == 0 {
        Seq::empty()
    } else {
        let front = type_param_names(gs.drop_last());
        match gs.last().type_ident {
            Some(n) => front.push(n@),
            None => front,
        }
    }
}

/// The header that every description of `input` carries: names, generics and where clause.
pub open spec fn header_of(
    input: DeclInput,
    ty_name: String,
    delta_type_name: String,
    type_param_decls: Vec<String>,
    type_params: Vec<String>,
    where_clause: Vec<String>,
) -> bool {
    &&& ty_name@ == input.ident@
    &&& delta_type_name@ == input.ident@ + "Delta"@
    &&& type_param_decls@.len() == input.generics@.len()
    &&& forall|i: int| 0 <= i < type_param_decls@.len() ==> (#[trigger] type_param_decls@[i])@
        == input.generics@[i].decl@
    &&& type_params@.map_values(|s: String| s@) == type_param_names(input.generics@)
    &&& match input.where_clause {
        Some(w) => where_clause@.map_values(|s: String| s@) == w@.map_values(|s: String| s@),
        None => where_clause@.len() == 0,
    }
}

fn copy_strings(v: &Vec<String>) -> (r: Vec<String>)
    ensures
        r@.map_values(|s: String| s@) == v@.map_values(|s: String| s@),
{
    let mut out: Vec<String> = Vec::new();
    let mut i: usize = 0;
    while i < v.len()
        invariant
            i <= v@.len(),
            out@.len() == i,
            forall|j: int| 0 <= j < i ==> (#[trigger] out@[j])@ == v@[j]@,
        decreases v@.len() - i,
    {
        out.push(v[i].clone());
        i = i + 1;
    }
    assert(out@.map_values(|s: String| s@) =~= v@.map_values(|s: String| s@));
    out
}

/// The header parts of a description of `input`: type name, delta type name, parameter
/// declarations, type parameter names and where clause.
fn header(input: &DeclInput) -> (r: (String, String, Vec<String>, Vec<String>, Vec<String>))
    ensures
        header_of(*input, r.0, r.1, r.2, r.3, r.4),
{
    let ty_name = input.ident.clone();
    let mut delta_type_name = input.ident.clone();
    delta_type_name.append("Delta");
    let mut decls: Vec<String> = Vec::new();
    let mut params: Vec<String> = Vec::new();
    let mut i: usize = 0;
    while i < input.generics.len()
        invariant
            i <= input.generics@.len(),
            decls@.len() == i,
            forall|j: int| 0 <= j < i ==> (#[trigger] decls@[j])@ == input.generics@[j].decl@,
            params@.map_values(|s: String| s@) == type_param_names(input.generics@.take(i as int)),
        decreases input.generics@.len() - i,
    {
        assert(input.generics@.take(i + 1).drop_last() =~= input.generics@.take(i as int));
        decls.push(input.generics[i].decl.clone());
        match &input.generics[i].type_ident {
            Some(n) => {
                params.push(n.clone());
            },
            None => {},
        }
        i = i + 1;
        assert(params@.map_values(|s: String| s@) =~= type_param_names(input.generics@.take(i as int)));
    }
    assert(input.generics@.take(i as int) =~= input.generics@);
    let where_clause = match &input.where_clause {
        Some(w) => copy_strings(w),
        None => Vec::new(),
    };
    (ty_name, delta_type_name, decls, params, where_clause)
}

/// Describes the fields `fs` in order, whatever their addressing.
fn describe_fields(fs: &Vec<FieldInput>) -> (r: Vec<FieldDesc>)
    ensures
        describes_all(r@, fs@),
{
    let mut out: Vec<FieldDesc> = Vec::new();
    let mut fidx: usize = 0;
    while fidx < fs.len()
        invariant
            fidx <= fs@.len(),
            out@.len() == fidx,
            forall|i: int| 0 <= i < fidx ==> #[trigger] describes(out@[i], fs@[i], i),
        decreases fs@.len() - fidx,
    {
        let field = &fs[fidx];
        match &field.ident {
            Some(field_ident) => {
                out.push(
                    FieldDesc::Named {
                        name: field_ident.clone(),
                        ty: field.ty.clone(),
                        ignore_field: field.ignore_field,
                    },
                );
            },
            None => {
                out.push(
                    FieldDesc::Positional {
                        position: fidx,
                        ty: field.ty.clone(),
                        ignore_field: field.ignore_field,
                    },
                );
            },
        }
        fidx = fidx + 1;
    }
    out
}

/// All fields of `ds` are named, or all are positional.
fn fields_consistent(ds: &Vec<FieldDesc>) -> (r: bool)
    ensures
        r == ((forall|i: int| 0 <= i < ds@.len() ==> (#[trigger] ds@[i]) is Named) || (forall|i: int|
            0 <= i < ds@.len() ==> (#[trigger] ds@[i]) is Positional)),
{
    let mut all_named = true;
    let mut all_positional = true;
    let mut i: usize = 0;
    while i < ds.len()
        invariant
            i <= ds@.len(),
            all_named == (forall|j: int| 0 <= j < i ==> (#[trigger] ds@[j]) is Named),
            all_positional == (forall|j: int| 0 <= j < i ==> (#[trigger] ds@[j]) is Positional),
        decreases ds@.len() - i,
    {
        if ds[i].is_named() {
            all_positional = false;
        } else {
            all_named = false;
        }
        i = i + 1;
    }
    all_named || all_positional
}

proof fn lemma_consistent(ds: Seq<FieldDesc>, fs: Seq<FieldInput>)
    requires
        describes_all(ds, fs),
    ensures
        consistent(fs) == ((forall|i: int| 0 <= i < ds.len() ==> (#[trigger] ds[i]) is Named) || (
        forall|i: int| 0 <= i < ds.len() ==> (#[trigger] ds[i]) is Positional)),
{
    assert forall|i: int| 0 <= i < fs.len() implies ((#[trigger] fs[i]).ident is Some <==> ds[i] is Named)
        && (fs[i].ident is None <==> ds[i] is Positional) by {
        assert(describes(ds[i], fs[i], i));
    }
    if forall|i: int| 0 <= i < ds.len() ==> (#[trigger] ds[i]) is Named {
        assert forall|i: int| 0 <= i < fs.len() implies (#[trigger] fs[i]).ident is Some by {
            assert(ds[i] is Named);
        }
    }
    if forall|i: int| 0 <= i < ds.len() ==> (#[trigger] ds[i]) is Positional {
        assert forall|i: int| 0 <= i < fs.len() implies (#[trigger] fs[i]).ident is None by {
            assert(ds[i] is Positional);
        }
    }
    if forall|i: int| 0 <= i < fs.len() ==> (#[trigger] fs[i]).ident is Some {
        assert forall|i: int| 0 <= i < ds.len() implies (#[trigger] ds[i]) is Named by {
            assert(fs[i].ident is Some);
        }
    }
    if forall|i: int| 0 <= i < fs.len() ==> (#[trigger] fs[i]).ident is None {
        assert forall|i: int| 0 <= i < ds.len() implies (#[trigger] ds[i]) is Positional by {
            assert(fs[i].ident is None);
        }
    }
}

impl InputType {
    /// Describes `input`; fails with `MixedFields` where a struct or a variant mixes named
    /// and positional fields.
    pub fn parse(input: &DeclInput) -> (r: DeriveResult<Self>)
        ensures
            match input.data {
                DataInput::Struct(fs) => if fs@.len() == 0 {
                    r matches Ok(t) && Self::describes_struct(t, *input, fs)
                } else {
                    Self::parse_struct_result(r, *input, fs)
                },
                DataInput::Enum(vs) => Self::parse_enum_result(r, *input, vs),
                DataInput::Union => r matches Ok(InputType::Union),
            },
    {
        match &input.data {
            DataInput::Struct(fields) => {
                if fields.len() != 0 {
                    Self::parse_struct(input, fields)
                } else {
                    Self::parse_unit_struct(input)
                }
            },
            DataInput::Enum(variants) => Self::parse_enum(input, variants),
            DataInput::Union => Ok(Self::Union),
        }
    }

    /// `t` describes `input` as a struct with fields `fs`.
    pub open spec fn describes_struct(t: InputType, input: DeclInput, fs: Vec<FieldInput>) -> bool {
        t matches InputType::Struct {
            struct_variant,
            ty_name,
            delta_type_name,
            fields,
            type_param_decls,
            type_params,
            where_clause,
        } && struct_variant == addressing(fs@) && describes_all(fields@, fs@) && header_of(
            input,
            ty_name,
            delta_type_name,
            type_param_decls,
            type_params,
            where_clause,
        )
    }

    /// What parsing the struct `input` with fields `fs` returns.
    pub open spec fn parse_struct_result(
        r: DeriveResult<InputType>,
        input: DeclInput,
        fs: Vec<FieldInput>,
    ) -> bool {
        if consistent(fs@) {
            r matches Ok(t) && Self::describes_struct(t, input, fs)
        } else {
            r == Err::<InputType, DeriveError>(DeriveError::MixedFields)
        }
    }

    /// What parsing the enum `input` with variants `vs` returns.
    pub open spec fn parse_enum_result(
        r: DeriveResult<InputType>,
        input: DeclInput,
        vs: Vec<VariantInput>,
    ) -> bool {
        if forall|i: int| 0 <= i < vs@.len() ==> consistent((#[trigger] vs@[i]).fields@) {
            r matches Ok(
                InputType::Enum {
                    ty_name,
                    delta_type_name,
                    enum_variants,
                    type_param_decls,
                    type_params,
                    where_clause,
                },
            ) && enum_variants@.len() == vs@.len() && (forall|i: int|
                0 <= i < vs@.len() ==> #[trigger] describes_variant(enum_variants@[i], vs@[i]))
                && header_of(input, ty_name, delta_type_name, type_param_decls, type_params, where_clause)
        } else {
            r == Err::<InputType, DeriveError>(DeriveError::MixedFields)
        }
    }

    /// Describes the struct `input` with fields `input_fields`.
    fn parse_struct(input: &DeclInput, input_fields: &Vec<FieldInput>) -> (r: DeriveResult<Self>)
        ensures
            Self::parse_struct_result(r, *input, *input_fields),
    {
        let new = Self::new_struct(input);
        match new {
            Self::Struct { ty_name, delta_type_name, type_param_decls, type_params, where_clause, .. } => {
                let fields = describe_fields(input_fields);
                let ok = fields_consistent(&fields);
                proof {
                    lemma_consistent(fields@, input_fields@);
                }
                if !ok {
                    return Err(DeriveError::MixedFields);
                }
                let struct_variant = if input_fields.len() == 0 {
                    StructVariant::UnitStruct
                } else if fields[input_fields.len() - 1].is_named() {
                    StructVariant::NamedStruct
                } else {
                    StructVariant::TupleStruct
                };
                proof {
                    if input_fields@.len() > 0 {
                        assert(describes(fields@[input_fields@.len() - 1], input_fields@[input_fields@.len() - 1], input_fields@.len() - 1));
                    }
                }
                Ok(Self::Struct {
                    struct_variant,
                    ty_name,
                    delta_type_name,
                    fields,
                    type_param_decls,
                    type_params,
                    where_clause,
                })
            },
            _ => Ok(new),
        }
    }

    /// Describes the struct `input`, which has no fields.
    fn parse_unit_struct(input: &DeclInput) -> (r: DeriveResult<Self>)
        requires
            input.data matches DataInput::Struct(fs) && fs@.len() == 0,
        ensures
            input.data matches DataInput::Struct(fs) && r matches Ok(t) && Self::describes_struct(t, *input, fs),
    {
        let new = Self::new_struct(input);
        proof {
            let fs = input.data->Struct_0;
            assert(describes_all(Seq::<FieldDesc>::empty(), fs@));
        }
        Ok(new)
    }

    /// Describes the enum `input` with variants `input_enum_variants`.
    fn parse_enum(input: &DeclInput, input_enum_variants: &Vec<VariantInput>) -> (r: DeriveResult<Self>)
        ensures
            Self::parse_enum_result(r, *input, *input_enum_variants),
    {
        let (ty_name, delta_type_name, type_param_decls, type_params, where_clause) = header(input);
        let mut enum_variants: Vec<EnumVariant> = Vec::new();
        let mut k: usize = 0;
        while k < input_enum_variants.len()
            invariant
                k <= input_enum_variants@.len(),
                enum_variants@.len() == k,
                forall|i: int| 0 <= i < k ==> consistent((#[trigger] input_enum_variants@[i]).fields@),
                forall|i: int| 0 <= i < k ==> #[trigger] describes_variant(enum_variants@[i], input_enum_variants@[i]),
            decreases input_enum_variants@.len() - k,
        {
            let iev = &input_enum_variants[k];
            let mut variant = EnumVariant::new(&iev.ident);
            let mut fidx: usize = 0;
            while fidx < iev.fields.len()
                invariant
                    fidx <= iev.fields@.len(),
                    variant.name@ == iev.ident@,
                    variant.fields@.len() == fidx,
                    forall|i: int| 0 <= i < fidx ==> #[trigger] describes(variant.fields@[i], iev.fields@[i], i),
                    variant.struct_variant == addressing(iev.fields@.take(fidx as int)),
                decreases iev.fields@.len() - fidx,
            {
                let field = &iev.fields[fidx];
                match &field.ident {
                    Some(field_ident) => {
                        variant.struct_variant = StructVariant::NamedStruct;
                        variant.add_field(
                            FieldDesc::Named {
                                name: field_ident.clone(),
                                ty: field.ty.clone(),
                                ignore_field: field.ignore_field,
                            },
                        );
                    },
                    None => {
                        variant.struct_variant = StructVariant::TupleStruct;
                        variant.add_field(
                            FieldDesc::Positional {
                                position: fidx,
                                ty: field.ty.clone(),
                                ignore_field: field.ignore_field,
                            },
                        );
                    },
                }
                fidx = fidx + 1;
                assert(iev.fields@.take(fidx as int).last() == iev.fields@[fidx - 1]);
            }
            assert(iev.fields@.take(fidx as int) =~= iev.fields@);
            let ok = fields_consistent(&variant.fields);
            proof {
                lemma_consistent(variant.fields@, iev.fields@);
            }
            if !ok {
                return Err(DeriveError::MixedFields);
            }
            enum_variants.push(variant);
            k = k + 1;
        }
        Ok(Self::Enum {
            ty_name,
            delta_type_name,
            enum_variants,
            type_param_decls,
            type_params,
            where_clause,
        })
    }

    /// An enum description of `input` with no variants yet.
    fn new_enum(input: &DeclInput) -> (r: Self)
        ensures
            r matches InputType::Enum {
                ty_name,
                delta_type_name,
                enum_variants,
                type_param_decls,
                type_params,
                where_clause,
            } && enum_variants@.len() == 0 && header_of(
                *input,
                ty_name,
                delta_type_name,
                type_param_decls,
                type_params,
                where_clause,
            ),
    {
        let (ty_name, delta_type_name, type_param_decls, type_params, where_clause) = header(input);
        Self::Enum {
            ty_name,
            delta_type_name,
            enum_variants: Vec::new(),
            type_param_decls,
            type_params,
            where_clause,
        }
    }

    /// A struct description of `input` with no fields yet.
    fn new_struct(input: &DeclInput) -> (r: Self)
        ensures
            r matches InputType::Struct {
                struct_variant,
                ty_name,
                delta_type_name,
                fields,
                type_param_decls,
                type_params,
                where_clause,
            } && struct_variant == StructVariant::UnitStruct && fields@.len() == 0 && header_of(
                *input,
                ty_name,
                delta_type_name,
                type_param_decls,
                type_params,
                where_clause,
            ),
    {
        let (ty_name, delta_type_name, type_param_decls, type_params, where_clause) = header(input);
        Self::Struct {
            struct_variant: StructVariant::UnitStruct,
            ty_name,
            delta_type_name,
            fields: Vec::new(),
            type_param_decls,
            type_params,
            where_clause,
        }
    }

    pub fn is_enum(&self) -> (r: bool)
        ensures
            r == self is Enum,
    {
        matches!(self, Self::Enum { .. })
    }

    pub fn is_struct(&self) -> (r: bool)
        ensures
            r == self is Struct,
    {
        matches!(self, Self::Struct { .. })
    }

    /// The type's name; unions have none.
    pub fn ty_name(&self) -> (r: &String)
        requires
            !(self is Union),
        ensures
            match self {
                InputType::Enum { ty_name, .. } => r == ty_name,
                InputType::Struct { ty_name, .. } => r == ty_name,
                InputType::Union => false,
            },
    {
        match self {
            Self::Enum { ty_name, .. } => ty_name,
            Self::Struct { ty_name, .. } => ty_name,
            Self::Union => unreached(),
        }
    }

    /// The type's generic parameter declarations; unions have none.
    pub fn type_param_decls(&self) -> (r: &Vec<String>)
        requires
            !(self is Union),
        ensures
            match self {
                InputType::Enum { type_param_decls, .. } => r == type_param_decls,
                InputType::Struct { type_param_decls, .. } => r == type_param_decls,
                InputType::Union => false,
            },
    {
        match self {
            Self::Enum { type_param_decls, .. } => type_param_decls,
            Self::Struct { type_param_decls, .. } => type_param_decls,
            Self::Union => unreached(),
        }
    }

    /// The type's where clause; unions have none.
    pub fn where_clause(&self) -> (r: &Vec<String>)
        requires
            !(self is Union),
        ensures
            match self {
                InputType::Enum { where_clause, .. } => r == where_clause,
                InputType::Struct { where_clause, .. } => r == where_clause,
                InputType::Union => false,
            },
    {
        match self {
            Self::Enum { where_clause, .. } => where_clause,
            Self::Struct { where_clause, .. } => where_clause,
            Self::Union => unreached(),
        }
    }
}

impl EnumVariant {
    /// A variant named `name` with no fields yet.
    pub fn new(name: &String) -> (r: Self)
        ensures
            r.struct_variant == StructVariant::UnitStruct,
            r.name@ == name@,
            r.fields@.len() == 0,
    {
        Self { struct_variant: StructVariant::UnitStruct, name: name.clone(), fields: Vec::new() }
    }

    pub fn add_field(&mut self, field: FieldDesc)
        ensures
            final(self).fields@ == old(self).fields@.push(field),
            final(self).name == old(self).name,
            final(self).struct_variant == old(self).struct_variant,
    {
        self.fields.push(field);
    }

    pub fn fields(&self) -> (r: &Vec<FieldDesc>)
        ensures
            r == &self.fields,
    {
        &self.fields
    }
}

impl FieldDesc {
    pub fn is_named(&self) -> (r: bool)
        ensures
            r == self is Named,
    {
        matches!(self, Self::Named { .. })
    }

    pub fn is_positional(&self) -> (r: bool)
        ensures
            r == self is Positional,
    {
        matches!(self, Self::Positional { .. })
    }

    /// The field's name, or `ExpectedNamedField` for a positional field.
    pub fn name_ref(&self) -> (r: DeriveResult<&String>)
        ensures
            match self {
                FieldDesc::Named { name, .. } => r == Ok::<&String, DeriveError>(name),
                FieldDesc::Positional { .. } => r == Err::<&String, DeriveError>(DeriveError::ExpectedNamedField),
            },
    {
        match self {
            Self::Named { name, .. } => Ok(name),
            Self::Positional { .. } => Err(DeriveError::ExpectedNamedField),
        }
    }

    /// The field's position, or `ExpectedPositionalField` for a named field.
    pub fn pos_ref(&self) -> (r: DeriveResult<usize>)
        ensures
            match self {
                FieldDesc::Named { .. } => r == Err::<usize, DeriveError>(DeriveError::ExpectedPositionalField),
                FieldDesc::Positional { position, .. } => r == Ok::<usize, DeriveError>(*position),
            },
    {
        match self {
            Self::Named { .. } => Err(DeriveError::ExpectedPositionalField),
            Self::Positional { position, .. } => Ok(*position),
        }
    }

    /// The text of the field's type.
    pub fn type_ref(&self) -> (r: &String)
        ensures
            match self {
                FieldDesc::Named { ty, .. } => r == ty,
                FieldDesc::Positional { ty, .. } => r == ty,
            },
    {
        match self {
            Self::Named { ty, .. } => ty,
            Self::Positional { ty, .. } => ty,
        }
    }

    /// The field is marked to carry no delta.
    pub fn ignore_field(&self) -> (r: bool)
        ensures
            match self {
                FieldDesc::Named { ignore_field, .. } => r == *ignore_field,
                FieldDesc::Positional { ignore_field, .. } => r == *ignore_field,
            },
    {
        match self {
            Self::Named { ignore_field, .. } => *ignore_field,
            Self::Positional { ignore_field, .. } => *ignore_field,
        }
    }

    /// The text of the type that the field has in the generated delta type: a marker for an
    /// ignored field, else an optional delta of the field's type.
    pub fn type_tokens(&self) -> (r: String)
        ensures
            self.ignore_field_spec() ==> r@ == "std::marker::PhantomData<"@ + self.type_spec()@ + ">"@,
            !self.ignore_field_spec() ==> r@ == "Option<<"@ + self.type_spec()@
                + " as deltoid::Core>::Delta>"@,
    {
        let ty: &String = self.type_ref();
        if self.ignore_field() {
            let mut r = String::from_str("std::marker::PhantomData<");
            r.append(ty.as_str());
            r.append(">");
            r
        } else {
            let mut r = String::from_str("Option<<");
            r.append(ty.as_str());
            r.append(" as deltoid::Core>::Delta>");
            r
        }
    }

    pub open spec fn ignore_field_spec(&self) -> bool {
        match self {
            FieldDesc::Named { ignore_field, .. } => *ignore_field,
            FieldDesc::Positional { ignore_field, .. } => *ignore_field,
        }
    }

    pub open spec fn type_spec(&self) -> String {
        match self {
            FieldDesc::Named { ty, .. } => *ty,
            FieldDesc::Positional { ty, .. } => *ty,
        }
    }
}

} // verus!
