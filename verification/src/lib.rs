//! Generates, for an enum, the source of a handler trait: one method per
//! variant and a dispatcher that matches on a value of the enum and calls the
//! method of its variant; optionally also the source of a mock of that trait.
//!
//! The generated code is handed out as text. What the library itself writes
//! is laid out token by token: tokens are separated by one space, a
//! parenthesised group hugs its contents and a braced group is padded with
//! one space on each side. A visibility, a type or a value that the settings
//! give is set in as the parser printed it.
//!
//! The names of the trait, the dispatcher and the methods have to be
//! identifiers. `checked_enum_handler_core` tests that and generates;
//! `enum_handler_core` leaves the test to its caller.

use vstd::prelude::*;

pub mod debug_file;
pub mod enum_handler_args;
pub mod error;
pub mod generator;
pub mod ident;
pub mod model;
pub mod syntax;
pub mod text;

use crate::enum_handler_args::{ArgsModel, EnumHandlerArgs};
use crate::error::{outcome, Error, ErrorModel};
use crate::ident::{identifier, is_identifier};
use crate::model::{
    method_name, DataModel, DeriveItem, DeriveItemModel, Enum, EnumModel, EnumVariant, ItemData,
    ItemVariant,
};
use crate::syntax::{snake_case, to_snake_case};

verus! {

impl EnumModel {
    /// Whether `text` is everything that is generated for the enum: the
    /// trait, or, where a mock is asked for, the trait and the mock behind
    /// it. A mock that cannot be written is left out without an error.
    pub open spec fn is_output(self, args: ArgsModel, text: Seq<char>) -> bool {
        ||| self.is_trait(args, text)
        ||| args.mock_name.len() > 0 && exists|written: Seq<char>, mock: Seq<char>|
            #![trigger self.is_trait(args, written), self.is_mock(args, mock)]
            self.is_trait(args, written) && self.is_mock(args, mock) && text == written + " "@
                + mock
    }
}

impl DeriveItemModel {
    /// Whether names are generated for the item at all: not for a struct or
    /// a union, nor for an enum without variants.
    pub open spec fn reaches_names(self) -> bool {
        self.is_enum() && self.variants().len() > 0
    }

    /// The names of the methods of all variants, in order.
    pub open spec fn method_names(self, args: ArgsModel) -> Seq<Seq<char>> {
        Seq::new(
            self.variants().len(),
            |i: int| method_name(args.handler(), snake_case(self.variants()[i].ident)),
        )
    }

    /// Whether every generated name is an identifier: the trait's, the
    /// dispatcher's and those of the methods.
    pub open spec fn names(self, args: ArgsModel) -> bool {
        &&& args.names_trait(self.ident)
        &&& args.names_handler()
        &&& forall|i: int|
            0 <= i < self.variants().len() ==> identifier(#[trigger] self.method_names(args)[i])
    }

    /// Whether every name that is generated for the item is an identifier.
    pub open spec fn names_are_identifiers(self, args: ArgsModel) -> bool {
        self.reaches_names() ==> self.names(args)
    }

    /// Whether the settings give the parser something to read for an enum
    /// with variants: a visibility, a return type, or a value to return.
    pub open spec fn parses(self, args: ArgsModel) -> bool {
        args.visibility.len() > 0 || args.return_type.len() > 0 || args.parses_return_value()
    }

    /// Whether `text` is what is generated for the item under the settings
    /// `args`: the output for the enum that the item is, which has variants.
    pub open spec fn generated(self, args: ArgsModel, text: Seq<char>) -> bool {
        exists|e: EnumModel|
            #![trigger self.made(args, e)]
            self.made(args, e) && e.variants.len() > 0 && e.is_output(args, text)
    }

    /// Whether `x` is the error for which nothing is generated: `NotEnum`
    /// for a struct or a union, `NoVariants` for an enum without variants,
    /// else a `SynError`, which takes a setting for the parser to refuse.
    pub open spec fn failed(self, args: ArgsModel, x: ErrorModel) -> bool {
        if !self.is_enum() {
            x == ErrorModel::NotEnum
        } else if self.variants().len() == 0 {
            x == ErrorModel::NoVariants
        } else {
            x is SynError && self.parses(args)
        }
    }

    /// What is generated where the settings leave nothing to the parser and
    /// ask for no mock.
    pub open spec fn plain_output(self, args: ArgsModel) -> Seq<char> {
        self.as_enum("()"@).plain_trait(args)
    }

    /// Whether `r` is what generating for the item comes to. Where the
    /// settings give the parser nothing to read and ask for no mock, the
    /// text is fixed; else it is made of what the parser handed back, and an
    /// error is the parser's.
    pub open spec fn comes_to(self, args: ArgsModel, r: Result<String, Error>) -> bool {
        &&& match r {
            Ok(text) => self.generated(args, text@),
            Err(x) => self.failed(args, x@),
        }
        &&& self.reaches_names() && !self.parses(args) && args.mock_name.len() == 0 ==> outcome(r)
            == Ok::<Seq<char>, ErrorModel>(self.plain_output(args))
    }
}

/// Puts the mock behind what is written already, one space between them. A
/// mock that could not be written is left out.
pub fn with_mock(written: String, mock: Result<String, Error>) -> (r: String)
    ensures
        r@ == (match mock {
            Ok(m) => written@ + " "@ + m@,
            Err(_) => written@,
        }),
{
    let mut r = written;
    match mock {
        Ok(m) => {
            r.append(" ");
            r.append(m.as_str());
        },
        Err(_) => {},
    }
    r
}

/// The first name among the methods of the variants from `from` up to `to`
/// that is no identifier.
fn bad_method_name(
    input: &DeriveItem,
    items: &Vec<ItemVariant>,
    args: &EnumHandlerArgs,
    from: usize,
    to: usize,
) -> (r: Option<String>)
    requires
        from <= to <= items.len(),
        input@.data == DataModel::Enum(items@.map_values(|v: ItemVariant| v@)),
    ensures
        r is None <==> forall|j: int|
            from <= j < to ==> identifier(#[trigger] input@.method_names(args@)[j]),
        r matches Some(name) ==> !identifier(name@),
{
    let handler = args.handler_name_text();
    let mut i: usize = from;
    while i < to
        invariant
            from <= i <= to <= items.len(),
            input@.data == DataModel::Enum(items@.map_values(|v: ItemVariant| v@)),
            handler@ == args@.handler(),
            forall|j: int| from <= j < i ==> identifier(#[trigger] input@.method_names(args@)[j]),
        decreases to - i,
    {
        let snake_name = to_snake_case(items[i].ident.as_str());
        let name = EnumVariant::join_handler_name(handler.as_str(), snake_name.as_str());
        assert(name@ == input@.method_names(args@)[i as int]);
        if !is_identifier(name.as_str()) {
            return Some(name);
        }
        i = i + 1;
    }
    None
}

/// The first generated name that is no identifier: the trait's, the
/// dispatcher's, then those of the methods in the order of the variants.
/// Nothing where all are, or where no name is generated.
pub fn first_bad_name(input: &DeriveItem, args: &EnumHandlerArgs) -> (r: Option<String>)
    ensures
        r is None <==> input@.names_are_identifiers(args@),
        r matches Some(name) ==> !identifier(name@),
{
    let items = match &input.data {
        ItemData::Enum(items) => items,
        _ => {
            return None;
        },
    };
    if items.len() == 0 {
        return None;
    }
    let trait_name = args.trait_name_text(input.ident.as_str());
    if !is_identifier(trait_name.as_str()) {
        return Some(trait_name);
    }
    if !args.names_handler() {
        return Some(args.handler_name_text());
    }
    bad_method_name(input, items, args, 0, items.len())
}

/// Writes everything that is generated for `input` under the settings
/// `args`. Every generated name has to be an identifier.
///
/// A struct or a union is `NotEnum`, an enum without variants `NoVariants`.
/// Where the settings give the parser nothing to read, the text is fixed;
/// else it is made of what the parser handed back, and an error is the
/// parser's.
pub fn enum_handler_core(input: &DeriveItem, args: &EnumHandlerArgs) -> (r: Result<String, Error>)
    requires
        input@.names_are_identifiers(args@),
    ensures
        input@.comes_to(args@, r),
{
    let e = match Enum::new(input, args) {
        Ok(e) => e,
        Err(x) => {
            return Err(x);
        },
    };
    if e.variants.len() == 0 {
        return Err(Error::NoVariants);
    }
    proof {
        assert forall|i: int| 0 <= i < e@.variants.len() implies (
        #[trigger] e@.variants[i]).names_handler(args@) by {
            assert(e@.variants[i].name == input@.variants()[i].ident);
            assert(e@.variants[i].handler_name(args@) == input@.method_names(args@)[i]);
        }
    }
    let written = match e.generate_trait(args) {
        Ok(t) => t,
        Err(x) => {
            return Err(x);
        },
    };
    if args.is_generate_mock() {
        let mock = e.generate_mock(args);
        Ok(with_mock(written, mock))
    } else {
        Ok(written)
    }
}

/// Writes everything that is generated for `input` under the settings
/// `args`, or nothing where a generated name is no identifier.
///
/// Names and settings are looked at in the order in which the steps of
/// generation meet them: the return type, the visibility, the names of the
/// trait, the dispatcher and the first method, the value to return, then the
/// names of the other methods. So an error of the parser that comes before a
/// bad name is handed on, and a bad name that comes before it gives nothing.
pub fn checked_enum_handler_core(input: &DeriveItem, args: &EnumHandlerArgs) -> (r: Option<
    Result<String, Error>,
>)
    ensures
        match r {
            Some(x) => input@.comes_to(args@, x),
            None => !input@.names_are_identifiers(args@),
        },
        input@.names_are_identifiers(args@) ==> r is Some,
{
    let items = match &input.data {
        ItemData::Enum(items) => items,
        _ => {
            return Some(Err(Error::NotEnum));
        },
    };
    let e = match Enum::new(input, args) {
        Ok(e) => e,
        Err(x) => {
            return Some(Err(x));
        },
    };
    if e.variants.len() == 0 {
        return Some(Err(Error::NoVariants));
    }
    match args.visibility(e.vis.as_str()) {
        Ok(_) => {},
        Err(x) => {
            return Some(Err(x));
        },
    }
    if !args.names_trait(input.ident.as_str()) || !args.names_handler() {
        return None;
    }
    if bad_method_name(input, items, args, 0, 1).is_some() {
        return None;
    }
    if args.is_default_implementation() {
        match args.get_return_value() {
            Ok(_) => {},
            Err(x) => {
                return Some(Err(x));
            },
        }
    }
    if bad_method_name(input, items, args, 1, items.len()).is_some() {
        return None;
    }
    Some(enum_handler_core(input, args))
}

} // verus!
