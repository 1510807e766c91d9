//! The text of the generated items: the method of one variant, the match arm
//! that calls it, the trait and the mock.

use vstd::prelude::*;

use crate::enum_handler_args::{ArgsModel, EnumHandlerArgs};
use crate::error::{outcome, Error, ErrorModel};
use crate::model::{
    optional_text, Enum, EnumModel, EnumVariant, EnumVariantType, VariantModel,
};
use crate::text::{comma_list, comma_string, leading, leading_string, spaced, spaced_string};

verus! {

/// The word in front of an async method.
pub open spec fn async_word(is_async: bool) -> Seq<char> {
    if is_async {
        "async "@
    } else {
        Seq::empty()
    }
}

/// What follows the call of an async method.
pub open spec fn await_word(is_async: bool) -> Seq<char> {
    if is_async {
        " . await"@
    } else {
        Seq::empty()
    }
}

/// The sign in front of a type that is passed by reference.
pub open spec fn borrow_word(by_ref: bool) -> Seq<char> {
    if by_ref {
        "& "@
    } else {
        Seq::empty()
    }
}

/// The attribute that makes async methods possible in a trait.
pub open spec fn async_trait_attribute(used: bool) -> Seq<char> {
    if used {
        "# [async_trait :: async_trait] "@
    } else {
        Seq::empty()
    }
}

/// The end of a method: a semicolon where it has no body, else the body in
/// braces.
pub open spec fn method_end(body: Option<Seq<char>>) -> Seq<char> {
    match body {
        None => " ;"@,
        Some(value) => " { "@ + leading(value) + "}"@,
    }
}

impl VariantModel {
    /// The type under which a field arrives in the method: its own where
    /// fields are moved; else a reference to it, a `String` as `& str`.
    pub open spec fn parameter_type(self, i: int, by_ref: bool) -> Seq<char> {
        if !by_ref {
            self.fields[i].ty
        } else if self.fields[i].ty == "String"@ {
            "& str"@
        } else {
            "& "@ + self.fields[i].ty
        }
    }

    /// One parameter of the method: name, colon, type.
    pub open spec fn typed_parameter(self, i: int, by_ref: bool) -> Seq<char> {
        self.parameter_name(self.fields[i].name, i as nat) + " : "@ + self.parameter_type(i, by_ref)
    }

    /// All parameters of the method: the receiver, then the fields.
    pub open spec fn signature(self, by_ref: bool) -> Seq<Seq<char>> {
        seq!["& self"@] + Seq::new(self.fields.len(), |i: int| self.typed_parameter(i, by_ref))
    }

    /// The method `handler_name` for this variant.
    pub open spec fn handler_text(
        self,
        handler_name: Seq<char>,
        is_async: bool,
        by_ref: bool,
        body: Option<Seq<char>>,
    ) -> Seq<char> {
        async_word(is_async) + "fn "@ + handler_name + " ("@ + comma_list(self.signature(by_ref))
            + ") -> "@ + self.return_type + method_end(body)
    }

    /// The method for this variant under settings that leave nothing to the
    /// parser: without a body, or, where they ask for default
    /// implementations, with an empty one.
    pub open spec fn plain_handler(self, args: ArgsModel) -> Seq<char> {
        self.handler_text(
            self.handler_name(args),
            args.is_async,
            args.pass_args_by_ref,
            if args.default_implementation {
                Some(Seq::empty())
            } else {
                None
            },
        )
    }

    /// Whether `text` is the method for this variant under the settings
    /// `args`: without a body, or, where they ask for default
    /// implementations, with a body that they admit.
    pub open spec fn is_handler(self, args: ArgsModel, text: Seq<char>) -> bool {
        if args.default_implementation {
            exists|value: Seq<char>|
                args.admits_return_value(value) && text == #[trigger] self.handler_text(
                    self.handler_name(args),
                    args.is_async,
                    args.pass_args_by_ref,
                    Some(value),
                )
        } else {
            text == self.handler_text(
                self.handler_name(args),
                args.is_async,
                args.pass_args_by_ref,
                None,
            )
        }
    }

    /// What follows the variant's name in a pattern that binds its fields.
    pub open spec fn pattern(self) -> Seq<char> {
        match self.variant_type {
            EnumVariantType::Unit => Seq::empty(),
            EnumVariantType::Struct => " { "@ + leading(comma_list(self.parameters())) + "}"@,
            EnumVariantType::Tuple => " ("@ + comma_list(self.parameters()) + ")"@,
        }
    }

    /// The arguments of the call in a match arm.
    pub open spec fn call_arguments(self) -> Seq<char> {
        match self.variant_type {
            EnumVariantType::Unit => " ()"@,
            _ => " ("@ + comma_list(self.parameters()) + ")"@,
        }
    }

    /// The match arm that binds this variant's fields and calls
    /// `handler_name` with them.
    pub open spec fn match_arm_text(self, handler_name: Seq<char>, is_async: bool) -> Seq<char> {
        self.enum_name + " :: "@ + self.name + self.pattern() + " => { self . "@ + handler_name
            + self.call_arguments() + await_word(is_async) + " }"@
    }

    /// The match arm for this variant under the settings `args`.
    pub open spec fn match_arm(self, args: ArgsModel) -> Seq<char> {
        self.match_arm_text(self.handler_name(args), args.is_async)
    }
}

impl EnumModel {
    /// The match arms of all variants, in order.
    pub open spec fn match_arms(self, args: ArgsModel) -> Seq<Seq<char>> {
        Seq::new(self.variants.len(), |i: int| self.variants[i].match_arm(args))
    }

    /// Whether the names of the methods of all variants are identifiers.
    pub open spec fn names_handlers(self, args: ArgsModel) -> bool {
        forall|i: int|
            0 <= i < self.variants.len() ==> (#[trigger] self.variants[i]).names_handler(args)
    }

    /// Whether every name in the trait is an identifier: the trait's, the
    /// dispatcher's and those of the methods.
    pub open spec fn names_trait(self, args: ArgsModel) -> bool {
        args.names_trait(self.name) && args.names_handler() && self.names_handlers(args)
    }

    /// Whether every name in the mock is an identifier: the trait's and
    /// those of the methods.
    pub open spec fn names_mock(self, args: ArgsModel) -> bool {
        args.names_trait(self.name) && self.names_handlers(args)
    }

    /// The methods of all variants, in order, under settings that leave
    /// nothing to the parser.
    pub open spec fn plain_handlers(self, args: ArgsModel) -> Seq<Seq<char>> {
        Seq::new(self.variants.len(), |i: int| self.variants[i].plain_handler(args))
    }

    /// Whether `handlers` are the methods of all variants, in order. A body
    /// is asked for once per method.
    pub open spec fn are_handlers(self, args: ArgsModel, handlers: Seq<Seq<char>>) -> bool {
        &&& handlers.len() == self.variants.len()
        &&& forall|i: int|
            0 <= i < handlers.len() ==> self.variants[i].is_handler(args, #[trigger] handlers[i])
    }

    /// The trait, from the pieces that go into it.
    pub open spec fn trait_text(
        self,
        args: ArgsModel,
        visibility: Seq<char>,
        return_type: Seq<char>,
        match_arms: Seq<Seq<char>>,
        handlers: Seq<Seq<char>>,
    ) -> Seq<char> {
        async_trait_attribute(args.uses_async_trait_macro()) + leading(visibility) + "trait "@
            + args.named_trait(self.name) + " { "@ + async_word(args.is_async) + "fn "@
            + args.handler() + " (& self , e : "@ + borrow_word(args.pass_args_by_ref) + self.name
            + ") -> "@ + return_type + " { match (e) {"@ + spaced(match_arms) + " } }"@ + spaced(
            handlers,
        ) + " }"@
    }

    /// Whether the trait cannot be written without the parser: a visibility
    /// or a return type is given, or there are methods with a body to read.
    pub open spec fn parses_for_trait(self, args: ArgsModel) -> bool {
        args.visibility.len() > 0 || args.return_type.len() > 0 || (self.variants.len() > 0
            && args.parses_return_value())
    }

    /// The trait under settings that leave nothing to the parser: with the
    /// enum's visibility and the return type `()`.
    pub open spec fn plain_trait(self, args: ArgsModel) -> Seq<char> {
        self.trait_text(args, self.vis, "()"@, self.match_arms(args), self.plain_handlers(args))
    }

    /// Whether `text` is the trait under the settings `args`: made of a
    /// visibility and a return type that they admit, the match arms and the
    /// methods.
    pub open spec fn is_trait(self, args: ArgsModel, text: Seq<char>) -> bool {
        exists|visibility: Seq<char>, return_type: Seq<char>, handlers: Seq<Seq<char>>|
            {
                &&& args.admits_visibility(self.vis, visibility)
                &&& args.admits_return_type(return_type)
                &&& self.are_handlers(args, handlers)
                &&& text == #[trigger] self.trait_text(
                    args,
                    visibility,
                    return_type,
                    self.match_arms(args),
                    handlers,
                )
            }
    }

    /// The mock, from the pieces that go into it.
    pub open spec fn mock_text(
        self,
        args: ArgsModel,
        visibility: Seq<char>,
        mock_name: Seq<char>,
        handlers: Seq<Seq<char>>,
    ) -> Seq<char> {
        "# [cfg (test)] mockall :: mock ! { "@ + leading(visibility) + mock_name + " { } "@
            + async_trait_attribute(args.uses_async_trait_macro()) + "impl "@ + args.named_trait(
            self.name,
        ) + " for "@ + mock_name + " {"@ + spaced(handlers) + " } }"@
    }

    /// Whether `text` is the mock under the settings `args`: made of a
    /// visibility that they admit, a name, which is whatever the parser made
    /// of the one given, and the methods, none with a body.
    pub open spec fn is_mock(self, args: ArgsModel, text: Seq<char>) -> bool {
        exists|visibility: Seq<char>, mock_name: Seq<char>|
            {
                &&& args.admits_visibility(self.vis, visibility)
                &&& text == #[trigger] self.mock_text(
                    args.for_mock(),
                    visibility,
                    mock_name,
                    self.plain_handlers(args.for_mock()),
                )
            }
    }
}

fn async_str(is_async: bool) -> (r: &'static str)
    ensures
        r@ == async_word(is_async),
{
    proof {
        reveal_strlit("");
    }
    if is_async {
        "async "
    } else {
        ""
    }
}

fn await_str(is_async: bool) -> (r: &'static str)
    ensures
        r@ == await_word(is_async),
{
    proof {
        reveal_strlit("");
    }
    if is_async {
        " . await"
    } else {
        ""
    }
}

fn borrow_str(by_ref: bool) -> (r: &'static str)
    ensures
        r@ == borrow_word(by_ref),
{
    proof {
        reveal_strlit("");
    }
    if by_ref {
        "& "
    } else {
        ""
    }
}

fn async_trait_str(used: bool) -> (r: &'static str)
    ensures
        r@ == async_trait_attribute(used),
{
    proof {
        reveal_strlit("");
    }
    if used {
        "# [async_trait :: async_trait] "
    } else {
        ""
    }
}

fn method_end_string(body: &Option<String>) -> (r: String)
    ensures
        r@ == method_end(optional_text(*body)),
{
    match body {
        None => String::from_str(" ;"),
        Some(value) => {
            let mut r = String::from_str(" { ");
            let padded = leading_string(value.as_str());
            r.append(padded.as_str());
            r.append("}");
            r
        },
    }
}

impl EnumVariant {
    /// The names under which the fields are bound, in order.
    pub fn parameters(&self) -> (r: Vec<String>)
        ensures
            r.deep_view() == self@.parameters(),
    {
        let mut r: Vec<String> = Vec::new();
        let mut i: usize = 0;
        while i < self.fields.len()
            invariant
                i <= self.fields.len(),
                r@.len() == i,
                forall|j: int|
                    0 <= j < i ==> (#[trigger] r@[j])@ == self@.parameter_name(
                        self@.fields[j].name,
                        j as nat,
                    ),
            decreases self.fields.len() - i,
        {
            let name = self.parameter_name(&self.fields[i].0, i);
            r.push(name);
            i = i + 1;
        }
        assert(r.deep_view() =~= self@.parameters());
        r
    }

    /// The parameters of the method, the receiver first.
    fn signature(&self, by_ref: bool) -> (r: Vec<String>)
        ensures
            r.deep_view() == self@.signature(by_ref),
    {
        let mut r: Vec<String> = Vec::new();
        r.push(String::from_str("& self"));
        let mut i: usize = 0;
        while i < self.fields.len()
            invariant
                i <= self.fields.len(),
                r@.len() == i + 1,
                r@[0]@ == "& self"@,
                forall|k: int|
                    1 <= k <= i ==> (#[trigger] r@[k])@ == self@.typed_parameter(k - 1, by_ref),
            decreases self.fields.len() - i,
        {
            let mut parameter = self.parameter_name(&self.fields[i].0, i);
            parameter.append(" : ");
            let ty = &self.fields[i].1;
            let plain = String::from_str("String");
            if !by_ref {
                parameter.append(ty.as_str());
            } else if *ty == plain {
                parameter.append("& str");
            } else {
                parameter.append("& ");
                parameter.append(ty.as_str());
            }
            assert(parameter@ =~= self@.typed_parameter(i as int, by_ref));
            r.push(parameter);
            i = i + 1;
        }
        assert(r.deep_view() =~= self@.signature(by_ref));
        r
    }

    /// Writes the method `handler_name` for this variant: with `body` between
    /// braces, or ended by a semicolon where there is none.
    pub fn handler_source(
        &self,
        handler_name: &str,
        is_async: bool,
        by_ref: bool,
        body: &Option<String>,
    ) -> (r: String)
        ensures
            r@ == self@.handler_text(handler_name@, is_async, by_ref, optional_text(*body)),
    {
        let parameters = self.signature(by_ref);
        let list = comma_string(&parameters);
        let end = method_end_string(body);
        let mut r = String::from_str(async_str(is_async));
        r.append("fn ");
        r.append(handler_name);
        r.append(" (");
        r.append(list.as_str());
        r.append(") -> ");
        r.append(self.return_type.as_str());
        r.append(end.as_str());
        r
    }

    /// Writes the method for this variant: without a body, or, where the
    /// settings ask for default implementations, with the value to return.
    /// The value goes through the parser unless it is `()`.
    pub fn generate_handler(&self, args: &EnumHandlerArgs) -> (r: Result<String, Error>)
        requires
            self@.names_handler(args@),
        ensures
            match r {
                Ok(text) => self@.is_handler(args@, text@),
                Err(e) => e@ is SynError && args@.parses_return_value(),
            },
            !args@.parses_return_value() ==> outcome(r) == Ok::<Seq<char>, ErrorModel>(
                self@.plain_handler(args@),
            ),
    {
        let handler_name = self.get_variant_handler_name(args);
        let body = if args.is_default_implementation() {
            match args.get_return_value() {
                Ok(value) => Some(value),
                Err(e) => {
                    return Err(e);
                },
            }
        } else {
            None
        };
        Ok(
            self.handler_source(
                handler_name.as_str(),
                args.is_async(),
                args.is_pass_args_by_ref(),
                &body,
            ),
        )
    }

    /// Writes the match arm that binds this variant's fields and calls
    /// `handler_name` with them.
    pub fn match_arm_source(&self, handler_name: &str, is_async: bool) -> (r: String)
        ensures
            r@ == self@.match_arm_text(handler_name@, is_async),
    {
        let parameters = self.parameters();
        let list = comma_string(&parameters);
        let mut in_parentheses = String::from_str(" (");
        in_parentheses.append(list.as_str());
        in_parentheses.append(")");
        let pattern = match self.variant_type {
            EnumVariantType::Unit => String::new(),
            EnumVariantType::Struct => {
                let padded = leading_string(list.as_str());
                let mut in_braces = String::from_str(" { ");
                in_braces.append(padded.as_str());
                in_braces.append("}");
                in_braces
            },
            EnumVariantType::Tuple => in_parentheses.clone(),
        };
        let call = match self.variant_type {
            EnumVariantType::Unit => String::from_str(" ()"),
            _ => in_parentheses,
        };
        let mut r = self.enum_name.clone();
        r.append(" :: ");
        r.append(self.name.as_str());
        r.append(pattern.as_str());
        r.append(" => { self . ");
        r.append(handler_name);
        r.append(call.as_str());
        r.append(await_str(is_async));
        r.append(" }");
        r
    }

    /// Writes the match arm that sends this variant to its method.
    pub fn generate_match_arm(&self, args: &EnumHandlerArgs) -> (r: String)
        requires
            self@.names_handler(args@),
        ensures
            r@ == self@.match_arm(args@),
    {
        let handler_name = self.get_variant_handler_name(args);
        self.match_arm_source(handler_name.as_str(), args.is_async())
    }
}

impl Enum {
    /// The match arms of all variants, in order.
    pub fn generate_match_arms(&self, args: &EnumHandlerArgs) -> (r: Vec<String>)
        requires
            self@.names_handlers(args@),
        ensures
            r.deep_view() == self@.match_arms(args@),
    {
        let mut r: Vec<String> = Vec::new();
        let mut i: usize = 0;
        while i < self.variants.len()
            invariant
                i <= self.variants.len(),
                self@.names_handlers(args@),
                r@.len() == i,
                forall|j: int|
                    0 <= j < i ==> (#[trigger] r@[j])@ == self@.variants[j].match_arm(args@),
            decreases self.variants.len() - i,
        {
            assert(self@.variants[i as int] == self.variants@[i as int]@);
            r.push(self.variants[i].generate_match_arm(args));
            i = i + 1;
        }
        assert(r.deep_view() =~= self@.match_arms(args@));
        r
    }

    /// The methods of all variants, in order; the error of the first that
    /// cannot be written.
    pub fn generate_handlers(&self, args: &EnumHandlerArgs) -> (r: Result<Vec<String>, Error>)
        requires
            self@.names_handlers(args@),
        ensures
            match r {
                Ok(handlers) => self@.are_handlers(args@, handlers.deep_view()),
                Err(e) => e@ is SynError && self@.variants.len() > 0
                    && args@.parses_return_value(),
            },
            !args@.parses_return_value() ==> r is Ok && r->Ok_0.deep_view()
                == self@.plain_handlers(args@),
    {
        let mut r: Vec<String> = Vec::new();
        let mut i: usize = 0;
        while i < self.variants.len()
            invariant
                i <= self.variants.len(),
                r@.len() == i,
                forall|j: int|
                    0 <= j < i ==> self@.variants[j].is_handler(args@, (#[trigger] r@[j])@),
                !args@.parses_return_value() ==> forall|j: int|
                    0 <= j < i ==> (#[trigger] r@[j])@ == self@.variants[j].plain_handler(args@),
                self@.names_handlers(args@),
            decreases self.variants.len() - i,
        {
            assert(self@.variants[i as int] == self.variants@[i as int]@);
            match self.variants[i].generate_handler(args) {
                Ok(handler) => {
                    r.push(handler);
                },
                Err(e) => {
                    return Err(e);
                },
            }
            i = i + 1;
        }
        proof {
            let handlers = r.deep_view();
            assert forall|j: int| 0 <= j < handlers.len() implies self@.variants[j].is_handler(
                args@,
                #[trigger] handlers[j],
            ) by {
                assert(handlers[j] == r@[j]@);
            }
            if !args@.parses_return_value() {
                assert(handlers =~= self@.plain_handlers(args@)) by {
                    assert forall|j: int| 0 <= j < handlers.len() implies handlers[j]
                        == self@.plain_handlers(args@)[j] by {
                        assert(handlers[j] == r@[j]@);
                    }
                }
            }
        }
        Ok(r)
    }

    /// Writes the trait from its names and the pieces that go into it.
    fn write_trait(
        &self,
        args: &EnumHandlerArgs,
        trait_name: &str,
        handler_name: &str,
        visibility: &str,
        return_type: &str,
        match_arms: &Vec<String>,
        handlers: &Vec<String>,
    ) -> (r: String)
        requires
            trait_name@ == args@.named_trait(self@.name),
            handler_name@ == args@.handler(),
        ensures
            r@ == self@.trait_text(
                args@,
                visibility@,
                return_type@,
                match_arms.deep_view(),
                handlers.deep_view(),
            ),
    {
        let padded = leading_string(visibility);
        let arms = spaced_string(match_arms);
        let methods = spaced_string(handlers);
        let mut r = String::from_str(async_trait_str(args.use_async_trait_macro()));
        r.append(padded.as_str());
        r.append("trait ");
        r.append(trait_name);
        r.append(" { ");
        r.append(async_str(args.is_async()));
        r.append("fn ");
        r.append(handler_name);
        r.append(" (& self , e : ");
        r.append(borrow_str(args.is_pass_args_by_ref()));
        r.append(self.name.as_str());
        r.append(") -> ");
        r.append(return_type);
        r.append(" { match (e) {");
        r.append(arms.as_str());
        r.append(" } }");
        r.append(methods.as_str());
        r.append(" }");
        r
    }

    /// Writes the trait from the pieces that go into it. The names are set
    /// in as the settings give them, whatever characters they are made of.
    pub fn trait_source(
        &self,
        args: &EnumHandlerArgs,
        visibility: &str,
        return_type: &str,
        match_arms: &Vec<String>,
        handlers: &Vec<String>,
    ) -> (r: String)
        ensures
            r@ == self@.trait_text(
                args@,
                visibility@,
                return_type@,
                match_arms.deep_view(),
                handlers.deep_view(),
            ),
    {
        let trait_name = args.trait_name_text(self.name.as_str());
        let handler_name = args.handler_name_text();
        self.write_trait(
            args,
            trait_name.as_str(),
            handler_name.as_str(),
            visibility,
            return_type,
            match_arms,
            handlers,
        )
    }

    /// Writes the trait: the dispatcher, which matches on the enum, and one
    /// method per variant.
    ///
    /// The visibility is asked for first, then the return type, then the
    /// methods; the first that the parser refuses gives the error.
    pub fn generate_trait(&self, args: &EnumHandlerArgs) -> (r: Result<String, Error>)
        requires
            self@.names_trait(args@),
        ensures
            match r {
                Ok(text) => self@.is_trait(args@, text@),
                Err(e) => e@ is SynError && self@.parses_for_trait(args@),
            },
            !self@.parses_for_trait(args@) ==> outcome(r) == Ok::<Seq<char>, ErrorModel>(
                self@.plain_trait(args@),
            ),
    {
        let visibility = match args.visibility(self.vis.as_str()) {
            Ok(v) => v,
            Err(e) => {
                return Err(e);
            },
        };
        let trait_name = args.get_trait_name(self.name.as_str());
        let handler_name = args.get_handler_name();
        let return_type = match args.get_return_type() {
            Ok(t) => t,
            Err(e) => {
                return Err(e);
            },
        };
        let handlers = match self.generate_handlers(args) {
            Ok(h) => h,
            Err(e) => {
                return Err(e);
            },
        };
        let match_arms = self.generate_match_arms(args);
        proof {
            if !self@.parses_for_trait(args@) {
                assert(handlers.deep_view() =~= self@.plain_handlers(args@));
            }
        }
        Ok(
            self.write_trait(
                args,
                trait_name.as_str(),
                handler_name.as_str(),
                visibility.as_str(),
                return_type.as_str(),
                &match_arms,
                &handlers,
            ),
        )
    }

    /// Writes the mock from the trait's name and the pieces that go into it.
    fn write_mock(
        &self,
        args: &EnumHandlerArgs,
        trait_name: &str,
        visibility: &str,
        mock_name: &str,
        handlers: &Vec<String>,
    ) -> (r: String)
        requires
            trait_name@ == args@.named_trait(self@.name),
        ensures
            r@ == self@.mock_text(args@, visibility@, mock_name@, handlers.deep_view()),
    {
        let padded = leading_string(visibility);
        let methods = spaced_string(handlers);
        let mut r = String::from_str("# [cfg (test)] mockall :: mock ! { ");
        r.append(padded.as_str());
        r.append(mock_name);
        r.append(" { } ");
        r.append(async_trait_str(args.use_async_trait_macro()));
        r.append("impl ");
        r.append(trait_name);
        r.append(" for ");
        r.append(mock_name);
        r.append(" {");
        r.append(methods.as_str());
        r.append(" } }");
        r
    }

    /// Writes the mock from the pieces that go into it. The trait's name is
    /// set in as the settings give it, whatever characters it is made of.
    pub fn mock_source(
        &self,
        args: &EnumHandlerArgs,
        visibility: &str,
        mock_name: &str,
        handlers: &Vec<String>,
    ) -> (r: String)
        ensures
            r@ == self@.mock_text(args@, visibility@, mock_name@, handlers.deep_view()),
    {
        let trait_name = args.trait_name_text(self.name.as_str());
        self.write_mock(args, trait_name.as_str(), visibility, mock_name, handlers)
    }

    /// Writes the mock of the trait, to be compiled in tests only.
    ///
    /// The visibility is asked for first, then the mock's name, which always
    /// goes through the parser; the first that the parser refuses gives the
    /// error.
    pub fn generate_mock(&self, args: &EnumHandlerArgs) -> (r: Result<String, Error>)
        requires
            self@.names_mock(args@),
        ensures
            match r {
                Ok(text) => self@.is_mock(args@, text@),
                Err(e) => e@ is SynError,
            },
    {
        let mock_args = args.clone_for_mock();
        let ghost given = args@;
        let args = &mock_args;
        proof {
            assert(args@.named_trait(self@.name) == given.named_trait(self@.name));
            assert(args@.handler() == given.handler());
            assert forall|i: int| 0 <= i < self@.variants.len() implies (
            #[trigger] self@.variants[i]).names_handler(args@) by {
                assert(self@.variants[i].names_handler(given));
            }
        }
        let visibility = match args.visibility(self.vis.as_str()) {
            Ok(v) => v,
            Err(e) => {
                return Err(e);
            },
        };
        let trait_name = args.get_trait_name(self.name.as_str());
        let handlers = match self.generate_handlers(args) {
            Ok(h) => h,
            Err(e) => {
                return Err(e);
            },
        };
        let mock_name = match args.get_mock_name() {
            Ok(n) => n,
            Err(e) => {
                return Err(e);
            },
        };
        Ok(
            self.write_mock(
                args,
                trait_name.as_str(),
                visibility.as_str(),
                mock_name.as_str(),
                &handlers,
            ),
        )
    }
}

} // verus!
