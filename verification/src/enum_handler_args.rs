//! The settings that the `enum_handler` attribute carries, and what each of
//! them stands for where it is left empty.

use vstd::prelude::*;

use crate::error::Error;
use crate::syntax::{parse_expr, parse_ident, parse_type, parse_visibility};
use crate::ident::{identifier, is_identifier};
use crate::text::{strip_raw, strip_raw_prefix};

verus! {

/// The settings as written. An empty text stands for "not given".
#[derive(Debug, Clone)]
pub struct EnumHandlerArgs {
    pub trait_suffix: String,
    pub trait_name: String,
    pub handler_name: String,
    pub return_type: String,
    pub default_return_value: String,
    pub is_async: bool,
    pub default_implementation: bool,
    pub visibility: String,
    pub no_async_trait_macro: bool,
    pub mock_name: String,
    pub pass_args_by_ref: bool,
}

/// The settings as mathematical values.
pub struct ArgsModel {
    pub trait_suffix: Seq<char>,
    pub trait_name: Seq<char>,
    pub handler_name: Seq<char>,
    pub return_type: Seq<char>,
    pub default_return_value: Seq<char>,
    pub is_async: bool,
    pub default_implementation: bool,
    pub visibility: Seq<char>,
    pub no_async_trait_macro: bool,
    pub mock_name: Seq<char>,
    pub pass_args_by_ref: bool,
}

impl View for EnumHandlerArgs {
    type V = ArgsModel;

    open spec fn view(&self) -> ArgsModel {
        ArgsModel {
            trait_suffix: self.trait_suffix@,
            trait_name: self.trait_name@,
            handler_name: self.handler_name@,
            return_type: self.return_type@,
            default_return_value: self.default_return_value@,
            is_async: self.is_async,
            default_implementation: self.default_implementation,
            visibility: self.visibility@,
            no_async_trait_macro: self.no_async_trait_macro,
            mock_name: self.mock_name@,
            pass_args_by_ref: self.pass_args_by_ref,
        }
    }
}

impl ArgsModel {
    /// Nothing given: every text empty, every switch off.
    pub open spec fn unset() -> ArgsModel {
        ArgsModel {
            trait_suffix: Seq::empty(),
            trait_name: Seq::empty(),
            handler_name: Seq::empty(),
            return_type: Seq::empty(),
            default_return_value: Seq::empty(),
            is_async: false,
            default_implementation: false,
            visibility: Seq::empty(),
            no_async_trait_macro: false,
            mock_name: Seq::empty(),
            pass_args_by_ref: false,
        }
    }

    /// The suffix of the trait's name: `Handler` unless one is given.
    pub open spec fn suffix(self) -> Seq<char> {
        if self.trait_suffix.len() == 0 {
            "Handler"@
        } else {
            self.trait_suffix
        }
    }

    /// The trait's name: the one given, else the enum's name, without the
    /// mark of a raw identifier, and the suffix.
    pub open spec fn named_trait(self, enum_name: Seq<char>) -> Seq<char> {
        if self.trait_name.len() == 0 {
            strip_raw(enum_name) + self.suffix()
        } else {
            self.trait_name
        }
    }

    /// The dispatcher's name: `on` unless one is given.
    pub open spec fn handler(self) -> Seq<char> {
        if self.handler_name.len() == 0 {
            "on"@
        } else {
            self.handler_name
        }
    }

    /// Whether the trait's name is an identifier.
    pub open spec fn names_trait(self, enum_name: Seq<char>) -> bool {
        identifier(self.named_trait(enum_name))
    }

    /// Whether the dispatcher's name is an identifier: `on` is, and one that
    /// is given has to be.
    pub open spec fn names_handler(self) -> bool {
        self.handler_name.len() == 0 || identifier(self.handler_name)
    }

    /// Whether `visibility` can be the trait's: any text can where the
    /// settings give one, which then went through the parser; else only the
    /// enum's own.
    pub open spec fn admits_visibility(
        self,
        enum_visibility: Seq<char>,
        visibility: Seq<char>,
    ) -> bool {
        self.visibility.len() == 0 ==> visibility == enum_visibility
    }

    /// Whether every method can return `return_type`: any text can where the
    /// settings give a type, which then went through the parser; else only
    /// `()`.
    pub open spec fn admits_return_type(self, return_type: Seq<char>) -> bool {
        self.return_type.len() == 0 ==> return_type == "()"@
    }

    /// Whether the settings give no value to return, or give `()`.
    pub open spec fn returns_unit(self) -> bool {
        self.default_return_value.len() == 0 || self.default_return_value == "()"@
    }

    /// Whether `value` can be the body of a method: any text can where the
    /// settings give a value other than `()`, which then went through the
    /// parser; else only the empty text.
    pub open spec fn admits_return_value(self, value: Seq<char>) -> bool {
        self.returns_unit() ==> value == Seq::<char>::empty()
    }

    /// Whether methods have a body that the parser has to read.
    pub open spec fn parses_return_value(self) -> bool {
        self.default_implementation && !self.returns_unit()
    }

    /// Whether the generated trait carries the `async_trait` attribute.
    pub open spec fn uses_async_trait_macro(self) -> bool {
        self.is_async && !self.no_async_trait_macro
    }

    /// The settings under which the mock is written: the same, but no method
    /// has a body.
    pub open spec fn for_mock(self) -> ArgsModel {
        ArgsModel { default_implementation: false, ..self }
    }
}

impl Default for EnumHandlerArgs {
    fn default() -> (r: EnumHandlerArgs)
        ensures
            r@ == ArgsModel::unset(),
    {
        EnumHandlerArgs {
            trait_suffix: String::new(),
            trait_name: String::new(),
            handler_name: String::new(),
            return_type: String::new(),
            default_return_value: String::new(),
            is_async: false,
            default_implementation: false,
            visibility: String::new(),
            no_async_trait_macro: false,
            mock_name: String::new(),
            pass_args_by_ref: false,
        }
    }
}

impl EnumHandlerArgs {
    /// The suffix of the trait's name.
    pub fn get_trait_suffix(&self) -> (r: String)
        ensures
            r@ == self@.suffix(),
    {
        if self.trait_suffix.as_str().is_empty() {
            return String::from_str("Handler");
        }
        self.trait_suffix.clone()
    }

    /// Writes the name of the trait for the enum `enum_name`, whatever
    /// characters it is made of.
    pub(crate) fn trait_name_text(&self, enum_name: &str) -> (r: String)
        ensures
            r@ == self@.named_trait(enum_name@),
    {
        if self.trait_name.as_str().is_empty() {
            let mut r = strip_raw_prefix(enum_name);
            let suffix = self.get_trait_suffix();
            r.append(suffix.as_str());
            r
        } else {
            self.trait_name.clone()
        }
    }

    /// Tests whether the name of the trait for the enum `enum_name` is an
    /// identifier.
    pub fn names_trait(&self, enum_name: &str) -> (r: bool)
        ensures
            r == self@.names_trait(enum_name@),
    {
        let name = self.trait_name_text(enum_name);
        is_identifier(name.as_str())
    }

    /// The name of the trait for the enum `enum_name`, which has to be an
    /// identifier.
    pub fn get_trait_name(&self, enum_name: &str) -> (r: String)
        requires
            self@.names_trait(enum_name@),
        ensures
            r@ == self@.named_trait(enum_name@),
    {
        self.trait_name_text(enum_name)
    }

    /// The name of the trait for the enum `enum_name` where it is an
    /// identifier, else nothing.
    pub fn checked_trait_name(&self, enum_name: &str) -> (r: Option<String>)
        ensures
            match r {
                Some(name) => self@.names_trait(enum_name@) && name@ == self@.named_trait(
                    enum_name@,
                ),
                None => !self@.names_trait(enum_name@),
            },
    {
        if self.names_trait(enum_name) {
            Some(self.get_trait_name(enum_name))
        } else {
            None
        }
    }

    /// The visibility of the trait, for an enum of visibility
    /// `enum_visibility`.
    ///
    /// The enum's own where the settings give none. One that is given goes
    /// through the parser: what comes back is handed on, an error as a
    /// `SynError`.
    pub fn visibility(&self, enum_visibility: &str) -> (r: Result<String, Error>)
        ensures
            match r {
                Ok(visibility) => self@.admits_visibility(enum_visibility@, visibility@),
                Err(e) => e@ is SynError && self@.visibility.len() > 0,
            },
    {
        if self.visibility.as_str().is_empty() {
            Ok(String::from_str(enum_visibility))
        } else {
            Error::from_syntax(parse_visibility(self.visibility.as_str()))
        }
    }

    /// Writes the name of the dispatcher, whatever characters it is made of.
    pub(crate) fn handler_name_text(&self) -> (r: String)
        ensures
            r@ == self@.handler(),
    {
        if self.handler_name.as_str().is_empty() {
            return String::from_str("on");
        }
        self.handler_name.clone()
    }

    /// Tests whether the name of the dispatcher is an identifier.
    pub fn names_handler(&self) -> (r: bool)
        ensures
            r == self@.names_handler(),
    {
        self.handler_name.as_str().is_empty() || is_identifier(self.handler_name.as_str())
    }

    /// The name of the dispatcher, which also starts the name of every
    /// method. One that is given has to be an identifier.
    pub fn get_handler_name(&self) -> (r: String)
        requires
            self@.names_handler(),
        ensures
            r@ == self@.handler(),
    {
        self.handler_name_text()
    }

    /// The name of the dispatcher where it is an identifier, else nothing.
    pub fn checked_handler_name(&self) -> (r: Option<String>)
        ensures
            match r {
                Some(name) => self@.names_handler() && name@ == self@.handler(),
                None => !self@.names_handler(),
            },
    {
        if self.names_handler() {
            Some(self.get_handler_name())
        } else {
            None
        }
    }

    /// The type that every method returns.
    ///
    /// `()` where the settings give none. One that is given goes through the
    /// parser: what comes back is handed on, an error as a `SynError`.
    pub fn get_return_type(&self) -> (r: Result<String, Error>)
        ensures
            match r {
                Ok(return_type) => self@.admits_return_type(return_type@),
                Err(e) => e@ is SynError && self@.return_type.len() > 0,
            },
    {
        if self.return_type.as_str().is_empty() {
            return Ok(String::from_str("()"));
        }
        Error::from_syntax(parse_type(self.return_type.as_str()))
    }

    /// What a method with a body returns; empty for `()`.
    ///
    /// Any other value goes through the parser: what comes back is handed
    /// on, an error as a `SynError`.
    pub fn get_return_value(&self) -> (r: Result<String, Error>)
        ensures
            match r {
                Ok(value) => self@.admits_return_value(value@),
                Err(e) => e@ is SynError && !self@.returns_unit(),
            },
    {
        let unit = String::from_str("()");
        if self.default_return_value.as_str().is_empty() || self.default_return_value == unit {
            return Ok(String::new());
        }
        Error::from_syntax(parse_expr(self.default_return_value.as_str()))
    }

    /// Whether a mock is asked for: it is where it has a name.
    pub fn is_generate_mock(&self) -> (r: bool)
        ensures
            r == (self@.mock_name.len() > 0),
    {
        !self.mock_name.as_str().is_empty()
    }

    /// The name of the mock, which has to be an identifier.
    ///
    /// It always goes through the parser: what comes back is handed on, an
    /// error as a `SynError`.
    pub fn get_mock_name(&self) -> (r: Result<String, Error>)
        ensures
            r matches Err(e) ==> e@ is SynError,
    {
        Error::from_syntax(parse_ident(self.mock_name.as_str()))
    }

    pub fn is_default_implementation(&self) -> (r: bool)
        ensures
            r == self@.default_implementation,
    {
        self.default_implementation
    }

    pub fn is_pass_args_by_ref(&self) -> (r: bool)
        ensures
            r == self@.pass_args_by_ref,
    {
        self.pass_args_by_ref
    }

    /// Whether fields reach their method by value.
    pub fn is_move_arguments(&self) -> (r: bool)
        ensures
            r == !self@.pass_args_by_ref,
    {
        !self.is_pass_args_by_ref()
    }

    /// Whether the trait carries the `async_trait` attribute: where it is
    /// async and the attribute is not switched off.
    pub fn use_async_trait_macro(&self) -> (r: bool)
        ensures
            r == self@.uses_async_trait_macro(),
    {
        self.is_async && !self.no_async_trait_macro
    }

    pub fn is_async(&self) -> (r: bool)
        ensures
            r == self@.is_async,
    {
        self.is_async
    }

    /// The settings under which the mock is written.
    pub fn clone_for_mock(&self) -> (r: EnumHandlerArgs)
        ensures
            r@ == self@.for_mock(),
    {
        EnumHandlerArgs {
            trait_suffix: self.trait_suffix.clone(),
            trait_name: self.trait_name.clone(),
            handler_name: self.handler_name.clone(),
            return_type: self.return_type.clone(),
            default_return_value: self.default_return_value.clone(),
            is_async: self.is_async,
            default_implementation: false,
            visibility: self.visibility.clone(),
            no_async_trait_macro: self.no_async_trait_macro,
            mock_name: self.mock_name.clone(),
            pass_args_by_ref: self.pass_args_by_ref,
        }
    }
}

} // verus!
