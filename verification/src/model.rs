//! The item that the derive is attached to, as far as the generator reads
//! it, and the enum that is made of it.
//!
//! Names, types and visibilities are held as text.

use vstd::prelude::*;

use crate::enum_handler_args::{ArgsModel, EnumHandlerArgs};
use crate::error::{outcome, Error, ErrorModel};
use crate::ident::{identifier, is_identifier};
use crate::syntax::{snake_case, to_snake_case};
use crate::text::{decimal, decimal_string, strip_raw, strip_raw_prefix};

verus! {

/// One field of a variant: its name, where it has one, and its type.
#[derive(Debug)]
pub struct ItemField {
    pub ident: Option<String>,
    pub ty: String,
}

/// The fields of a variant, by the brackets they were written in.
#[derive(Debug)]
pub enum ItemFields {
    /// In braces, each with a name.
    Named(Vec<ItemField>),
    /// In parentheses, by position.
    Unnamed(Vec<ItemField>),
    /// No brackets at all.
    Unit,
}

/// One variant as written: its name and its fields.
#[derive(Debug)]
pub struct ItemVariant {
    pub ident: String,
    pub fields: ItemFields,
}

/// What kind of item it is, with the variants where it is an enum.
#[derive(Debug)]
pub enum ItemData {
    Struct,
    Enum(Vec<ItemVariant>),
    Union,
}

/// The item under the derive.
#[derive(Debug)]
pub struct DeriveItem {
    pub vis: String,
    pub ident: String,
    pub data: ItemData,
}

/// The three shapes of a variant.
#[derive(Debug, Clone, Copy, PartialEq, Eq, Structural)]
pub enum EnumVariantType {
    Unit,
    Tuple,
    Struct,
}

/// A variant as the generator sees it: with the name of its enum, the type
/// that its method returns, and its fields as pairs of name and type.
#[derive(Debug)]
pub struct EnumVariant {
    pub enum_name: String,
    pub name: String,
    pub variant_type: EnumVariantType,
    pub return_type: String,
    pub fields: Vec<(Option<String>, String)>,
}

/// The enum that a trait is generated for.
#[derive(Debug)]
pub struct Enum {
    pub vis: String,
    pub name: String,
    pub variants: Vec<EnumVariant>,
}

/// A field as mathematical values.
pub struct FieldModel {
    pub name: Option<Seq<char>>,
    pub ty: Seq<char>,
}

/// The fields of a variant as mathematical values.
pub enum FieldsModel {
    Named(Seq<FieldModel>),
    Unnamed(Seq<FieldModel>),
    Unit,
}

/// A variant as written, as mathematical values.
pub struct ItemVariantModel {
    pub ident: Seq<char>,
    pub fields: FieldsModel,
}

/// The kind of an item, as mathematical values.
pub enum DataModel {
    Struct,
    Enum(Seq<ItemVariantModel>),
    Union,
}

/// The item under the derive, as mathematical values.
pub struct DeriveItemModel {
    pub vis: Seq<char>,
    pub ident: Seq<char>,
    pub data: DataModel,
}

/// A variant of the enum, as mathematical values.
pub struct VariantModel {
    pub enum_name: Seq<char>,
    pub name: Seq<char>,
    pub variant_type: EnumVariantType,
    pub return_type: Seq<char>,
    pub fields: Seq<FieldModel>,
}

/// The enum, as mathematical values.
pub struct EnumModel {
    pub vis: Seq<char>,
    pub name: Seq<char>,
    pub variants: Seq<VariantModel>,
}

/// A text that may be missing.
pub open spec fn optional_text(name: Option<String>) -> Option<Seq<char>> {
    match name {
        Some(n) => Some(n@),
        None => None,
    }
}

/// A field kept as a pair of name and type.
pub open spec fn pair_model(field: (Option<String>, String)) -> FieldModel {
    FieldModel { name: optional_text(field.0), ty: field.1@ }
}

impl View for ItemField {
    type V = FieldModel;

    open spec fn view(&self) -> FieldModel {
        FieldModel { name: optional_text(self.ident), ty: self.ty@ }
    }
}

impl View for ItemFields {
    type V = FieldsModel;

    open spec fn view(&self) -> FieldsModel {
        match self {
            ItemFields::Named(fields) => FieldsModel::Named(fields@.map_values(|f: ItemField| f@)),
            ItemFields::Unnamed(fields) => FieldsModel::Unnamed(
                fields@.map_values(|f: ItemField| f@),
            ),
            ItemFields::Unit => FieldsModel::Unit,
        }
    }
}

impl View for ItemVariant {
    type V = ItemVariantModel;

    open spec fn view(&self) -> ItemVariantModel {
        ItemVariantModel { ident: self.ident@, fields: self.fields@ }
    }
}

impl View for ItemData {
    type V = DataModel;

    open spec fn view(&self) -> DataModel {
        match self {
            ItemData::Struct => DataModel::Struct,
            ItemData::Enum(variants) => DataModel::Enum(variants@.map_values(|v: ItemVariant| v@)),
            ItemData::Union => DataModel::Union,
        }
    }
}

impl View for DeriveItem {
    type V = DeriveItemModel;

    open spec fn view(&self) -> DeriveItemModel {
        DeriveItemModel { vis: self.vis@, ident: self.ident@, data: self.data@ }
    }
}

impl View for EnumVariant {
    type V = VariantModel;

    open spec fn view(&self) -> VariantModel {
        VariantModel {
            enum_name: self.enum_name@,
            name: self.name@,
            variant_type: self.variant_type,
            return_type: self.return_type@,
            fields: self.fields@.map_values(|f: (Option<String>, String)| pair_model(f)),
        }
    }
}

impl View for Enum {
    type V = EnumModel;

    open spec fn view(&self) -> EnumModel {
        EnumModel {
            vis: self.vis@,
            name: self.name@,
            variants: self.variants@.map_values(|v: EnumVariant| v@),
        }
    }
}

impl FieldsModel {
    /// The fields in the order written; none for a unit variant.
    pub open spec fn listed(self) -> Seq<FieldModel> {
        match self {
            FieldsModel::Named(fields) => fields,
            FieldsModel::Unnamed(fields) => fields,
            FieldsModel::Unit => Seq::empty(),
        }
    }

    /// The kind of variant that such fields make.
    pub open spec fn variant_type(self) -> EnumVariantType {
        match self {
            FieldsModel::Named(_) => EnumVariantType::Struct,
            FieldsModel::Unnamed(_) => EnumVariantType::Tuple,
            FieldsModel::Unit => EnumVariantType::Unit,
        }
    }
}

impl ItemVariantModel {
    /// The variant as the generator sees it, in the enum `enum_name` whose
    /// methods return `return_type`.
    pub open spec fn in_enum(self, enum_name: Seq<char>, return_type: Seq<char>) -> VariantModel {
        VariantModel {
            enum_name,
            name: self.ident,
            variant_type: self.fields.variant_type(),
            return_type,
            fields: self.fields.listed(),
        }
    }
}

impl DeriveItemModel {
    /// Whether the item is an enum.
    pub open spec fn is_enum(self) -> bool {
        self.data is Enum
    }

    /// The variants as written; none for a struct or a union.
    pub open spec fn variants(self) -> Seq<ItemVariantModel> {
        match self.data {
            DataModel::Enum(variants) => variants,
            _ => Seq::empty(),
        }
    }

    /// The enum whose methods all return `return_type`.
    pub open spec fn as_enum(self, return_type: Seq<char>) -> EnumModel {
        EnumModel {
            vis: self.vis,
            name: self.ident,
            variants: Seq::new(
                self.variants().len(),
                |i: int| self.variants()[i].in_enum(self.ident, return_type),
            ),
        }
    }

    /// Whether `e` is the enum that the item is, under the settings `args`:
    /// with its visibility and name, and its variants one by one, each with
    /// a return type that the settings admit. The return type is asked for
    /// once per variant.
    pub open spec fn made(self, args: ArgsModel, e: EnumModel) -> bool {
        &&& self.is_enum()
        &&& e.vis == self.vis
        &&& e.name == self.ident
        &&& e.variants.len() == self.variants().len()
        &&& forall|i: int|
            0 <= i < e.variants.len() ==> {
                &&& (#[trigger] e.variants[i]) == self.variants()[i].in_enum(
                    self.ident,
                    e.variants[i].return_type,
                )
                &&& args.admits_return_type(e.variants[i].return_type)
            }
    }

    /// Whether `x` is the error for which no enum is made: `NotEnum` for a
    /// struct or a union; for an enum a `SynError`, which takes a variant and
    /// a return type for the parser to refuse.
    pub open spec fn refused(self, args: ArgsModel, x: ErrorModel) -> bool {
        if self.is_enum() {
            x is SynError && self.variants().len() > 0 && args.return_type.len() > 0
        } else {
            x == ErrorModel::NotEnum
        }
    }
}

/// The name of a variant's method: the dispatcher's name, without the mark of
/// a raw identifier, an underscore, and the variant's name in snake case.
pub open spec fn method_name(handler: Seq<char>, snake_name: Seq<char>) -> Seq<char> {
    strip_raw(handler) + seq!['_'] + snake_name
}

impl VariantModel {
    /// The name of the method that handles this variant.
    pub open spec fn handler_name(self, args: ArgsModel) -> Seq<char> {
        method_name(args.handler(), snake_case(self.name))
    }

    /// Whether the name of the method that handles this variant is an
    /// identifier, and the dispatcher's name, which it starts with.
    pub open spec fn names_handler(self, args: ArgsModel) -> bool {
        args.names_handler() && identifier(self.handler_name(args))
    }

    /// The name under which a field is bound and passed on: its own, or `arg`
    /// for the only field, or `arg` and the field's position.
    pub open spec fn parameter_name(self, field_name: Option<Seq<char>>, index: nat) -> Seq<char> {
        match field_name {
            Some(name) => name,
            None => if self.fields.len() == 1 {
                "arg"@
            } else {
                "arg"@ + decimal(index)
            },
        }
    }

    /// The names of all fields, in order.
    pub open spec fn parameters(self) -> Seq<Seq<char>> {
        Seq::new(self.fields.len(), |i: int| self.parameter_name(self.fields[i].name, i as nat))
    }
}

/// Copies a name that may be missing.
fn clone_name(name: &Option<String>) -> (r: Option<String>)
    ensures
        optional_text(r) == optional_text(*name),
{
    match name {
        Some(n) => Some(n.clone()),
        None => None,
    }
}

/// Copies the fields of a variant as pairs of name and type.
fn field_pairs(fields: &Vec<ItemField>) -> (r: Vec<(Option<String>, String)>)
    ensures
        r@.map_values(|f: (Option<String>, String)| pair_model(f)) == fields@.map_values(
            |f: ItemField| f@,
        ),
{
    let mut r: Vec<(Option<String>, String)> = Vec::new();
    let mut i: usize = 0;
    while i < fields.len()
        invariant
            i <= fields.len(),
            r@.len() == i,
            forall|j: int| 0 <= j < i ==> pair_model(#[trigger] r@[j]) == fields@[j]@,
        decreases fields.len() - i,
    {
        let field = &fields[i];
        r.push((clone_name(&field.ident), field.ty.clone()));
        i = i + 1;
    }
    assert(r@.map_values(|f: (Option<String>, String)| pair_model(f)) =~= fields@.map_values(
        |f: ItemField| f@,
    ));
    r
}

impl EnumVariant {
    /// Makes the variant of the enum `enum_name` from what was written. The
    /// settings give the return type: `()`, or what the parser made of the
    /// one given, whose error is handed on as a `SynError`.
    pub fn new(variant: &ItemVariant, enum_name: String, args: &EnumHandlerArgs) -> (r: Result<
        EnumVariant,
        Error,
    >)
        ensures
            match r {
                Ok(made) => {
                    &&& made@ == variant@.in_enum(enum_name@, made@.return_type)
                    &&& args@.admits_return_type(made@.return_type)
                },
                Err(e) => e@ is SynError && args@.return_type.len() > 0,
            },
    {
        let name = variant.ident.clone();
        let fields = match &variant.fields {
            ItemFields::Named(fields) => field_pairs(fields),
            ItemFields::Unnamed(fields) => field_pairs(fields),
            ItemFields::Unit => Vec::new(),
        };
        let return_type = match args.get_return_type() {
            Ok(t) => t,
            Err(e) => {
                return Err(e);
            },
        };
        let variant_type = match variant.fields {
            ItemFields::Unit => EnumVariantType::Unit,
            ItemFields::Named(_) => EnumVariantType::Struct,
            ItemFields::Unnamed(_) => EnumVariantType::Tuple,
        };
        let made = EnumVariant { enum_name, name, variant_type, return_type, fields };
        proof {
            assert(made@.fields =~= variant@.fields.listed());
        }
        Ok(made)
    }

    /// Joins the dispatcher's name and a variant's name, already in snake
    /// case, to the name of the variant's method.
    pub fn join_handler_name(handler: &str, snake_name: &str) -> (r: String)
        ensures
            r@ == method_name(handler@, snake_name@),
    {
        let mut r = strip_raw_prefix(handler);
        proof {
            reveal_strlit("_");
            assert("_"@ =~= seq!['_']);
        }
        r.append("_");
        r.append(snake_name);
        r
    }

    /// Writes the name of the method that handles this variant, whatever
    /// characters it is made of.
    pub(crate) fn handler_name_text(&self, args: &EnumHandlerArgs) -> (r: String)
        ensures
            r@ == self@.handler_name(args@),
    {
        let handler = args.handler_name_text();
        let snake_name = to_snake_case(self.name.as_str());
        EnumVariant::join_handler_name(handler.as_str(), snake_name.as_str())
    }

    /// Tests whether the name of the method that handles this variant is an
    /// identifier, and the dispatcher's name.
    pub fn names_handler(&self, args: &EnumHandlerArgs) -> (r: bool)
        ensures
            r == self@.names_handler(args@),
    {
        if !args.names_handler() {
            return false;
        }
        let name = self.handler_name_text(args);
        is_identifier(name.as_str())
    }

    /// The name of the method that handles this variant, which has to be an
    /// identifier, as has the dispatcher's.
    pub fn get_variant_handler_name(&self, args: &EnumHandlerArgs) -> (r: String)
        requires
            self@.names_handler(args@),
        ensures
            r@ == self@.handler_name(args@),
    {
        let handler = args.get_handler_name();
        let snake_name = to_snake_case(self.name.as_str());
        EnumVariant::join_handler_name(handler.as_str(), snake_name.as_str())
    }

    /// The name under which the field at `index` is bound: `field_name` where
    /// it has one, else `arg`, with the index behind it unless the variant
    /// has this field only.
    pub fn parameter_name(&self, field_name: &Option<String>, index: usize) -> (r: String)
        ensures
            r@ == self@.parameter_name(optional_text(*field_name), index as nat),
    {
        if let Some(name) = field_name {
            return name.clone();
        }
        if self.is_single_field() {
            String::from_str("arg")
        } else {
            let mut r = String::from_str("arg");
            let position = decimal_string(index);
            r.append(position.as_str());
            r
        }
    }

    fn is_single_field(&self) -> (r: bool)
        ensures
            r == (self@.fields.len() == 1),
    {
        self.fields.len() == 1
    }
}

impl Enum {
    /// Makes the enum from the item under the derive, which has to be one.
    pub fn new(derive_input: &DeriveItem, args: &EnumHandlerArgs) -> (r: Result<Enum, Error>)
        ensures
            match r {
                Ok(made) => derive_input@.made(args@, made@),
                Err(x) => derive_input@.refused(args@, x@),
            },
            args@.return_type.len() == 0 && derive_input@.is_enum() ==> outcome(r) == Ok::<
                EnumModel,
                ErrorModel,
            >(derive_input@.as_enum("()"@)),
    {
        let items = match &derive_input.data {
            ItemData::Enum(items) => items,
            _ => {
                return Err(Error::NotEnum);
            },
        };
        let vis = derive_input.vis.clone();
        let name = derive_input.ident.clone();
        let mut variants: Vec<EnumVariant> = Vec::new();
        let mut i: usize = 0;
        while i < items.len()
            invariant
                i <= items.len(),
                variants@.len() == i,
                name@ == derive_input@.ident,
                derive_input@.data == DataModel::Enum(items@.map_values(|v: ItemVariant| v@)),
                forall|j: int|
                    0 <= j < i ==> {
                        &&& (#[trigger] variants@[j])@ == items@[j]@.in_enum(
                            name@,
                            variants@[j]@.return_type,
                        )
                        &&& args@.admits_return_type(variants@[j]@.return_type)
                    },
            decreases items.len() - i,
        {
            match EnumVariant::new(&items[i], name.clone(), args) {
                Ok(variant) => {
                    variants.push(variant);
                },
                Err(e) => {
                    return Err(e);
                },
            }
            i = i + 1;
        }
        let made = Enum { vis, name, variants };
        proof {
            assert forall|j: int| 0 <= j < made@.variants.len() implies {
                &&& (#[trigger] made@.variants[j]) == derive_input@.variants()[j].in_enum(
                    derive_input@.ident,
                    made@.variants[j].return_type,
                )
                &&& args@.admits_return_type(made@.variants[j].return_type)
            } by {
                let variant = made.variants@[j];
            }
            if args@.return_type.len() == 0 {
                assert(made@.variants =~= derive_input@.as_enum("()"@).variants);
            }
        }
        Ok(made)
    }
}

} // verus!
