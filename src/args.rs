//! The arguments that generated decode code threads from one field to the
//! next, and the token lists that render them as a pattern, a type and a
//! call argument.

use vstd::prelude::*;

verus! {

/// One token of generated source text.
#[derive(Debug, Clone, Copy, PartialEq, Eq)]
pub enum Token<'a> {
    /// Text taken as it is.
    Text(&'a str),
    /// An integer literal of type `usize`.
    Usize(usize),
}

/// The length of an array field: the name of an earlier value, or a
/// constant.
#[derive(Debug, Clone, Copy, PartialEq, Eq)]
pub enum ArrayLength<'a> {
    Variable(&'a str),
    Constant(usize),
}

/// A literal in an attribute.
#[derive(Debug, Clone, Copy, PartialEq, Eq)]
pub enum Literal<'a> {
    Str(&'a str),
    Int(u64),
    /// Any other kind of literal.
    Other,
}

/// An item of an attribute's list.
#[derive(Debug, Clone, Copy, PartialEq, Eq)]
pub enum MetaItem<'a> {
    /// `name = literal`.
    NameValue(&'a str, Literal<'a>),
    /// A bare word or a nested list.
    Other,
}

/// An entry of an attribute's list: an item or a bare literal.
#[derive(Debug, Clone, Copy, PartialEq, Eq)]
pub enum NestedMetaItem<'a> {
    MetaItem(MetaItem<'a>),
    Literal(Literal<'a>),
}

/// Whether `item` reads `name = "type"`.
pub open spec fn is_argument_item(item: MetaItem) -> bool {
    item matches MetaItem::NameValue(_, Literal::Str(_))
}

/// Whether `item` is an item that reads `name = "type"`.
pub open spec fn is_argument_entry(item: NestedMetaItem) -> bool {
    match item {
        NestedMetaItem::MetaItem(m) => is_argument_item(m),
        NestedMetaItem::Literal(_) => false,
    }
}

/// The argument that a well-formed entry declares.
pub open spec fn entry_argument<'a>(item: NestedMetaItem<'a>) -> Argument<'a> {
    match item {
        NestedMetaItem::MetaItem(MetaItem::NameValue(ident, Literal::Str(ty))) => Argument { ident, ty },
        _ => Argument { ident: "", ty: "" },
    }
}

/// Whether `lit` can give an array's length: a name or an integer.
pub open spec fn is_length_literal(lit: Literal) -> bool {
    !(lit is Other)
}

impl<'a> ArrayLength<'a> {
    /// The length that a literal gives: a string names an earlier value, an
    /// integer is a constant.
    pub fn from_lit(lit: &Literal<'a>) -> (r: ArrayLength<'a>)
        requires
            is_length_literal(*lit),
        ensures
            match *lit {
                Literal::Str(ident) => r == ArrayLength::Variable(ident),
                Literal::Int(size) => r == ArrayLength::Constant(size as usize),
                Literal::Other => false,
            },
    {
        match *lit {
            Literal::Str(ident) => ArrayLength::Variable(ident),
            Literal::Int(size) => ArrayLength::Constant(size as usize),
            Literal::Other => ArrayLength::Constant(0),
        }
    }

    /// The token that stands for the length's value.
    pub open spec fn spec_value(self) -> Token<'a> {
        match self {
            ArrayLength::Variable(name) => Token::Text(name),
            ArrayLength::Constant(size) => Token::Usize(size),
        }
    }

    /// Appends the token that stands for the length's value.
    pub fn to_tokens_value(&self, tokens: &mut Vec<Token<'a>>)
        ensures
            final(tokens)@ == old(tokens)@.push(self.spec_value()),
    {
        match *self {
            ArrayLength::Variable(name) => tokens.push(Token::Text(name)),
            ArrayLength::Constant(size) => tokens.push(Token::Usize(size)),
        }
    }

    /// Appends the token that stands for the length's type.
    pub fn to_tokens_type(&self, tokens: &mut Vec<Token<'a>>)
        ensures
            final(tokens)@ == old(tokens)@.push(Token::Text("usize")),
    {
        tokens.push(Token::Text("usize"));
    }
}

/// A named, typed value that a decode step takes: `ident: ty`.
#[derive(Debug, Clone, Copy, PartialEq, Eq)]
pub struct Argument<'a> {
    pub ident: &'a str,
    pub ty: &'a str,
}

impl<'a> Argument<'a> {
    /// The argument that `name = "type"` declares.
    pub fn from_meta_item(item: &MetaItem<'a>) -> (r: Argument<'a>)
        requires
            is_argument_item(*item),
        ensures
            r == entry_argument(NestedMetaItem::MetaItem(*item)),
    {
        match *item {
            MetaItem::NameValue(ident, Literal::Str(ty)) => Argument { ident, ty },
            _ => Argument { ident: "", ty: "" },
        }
    }

    /// Appends the argument's name.
    pub fn to_tokens_value(&self, tokens: &mut Vec<Token<'a>>)
        ensures
            final(tokens)@ == old(tokens)@.push(Token::Text(self.ident)),
    {
        tokens.push(Token::Text(self.ident));
    }

    /// Appends the argument's type.
    pub fn to_tokens_type(&self, tokens: &mut Vec<Token<'a>>)
        ensures
            final(tokens)@ == old(tokens)@.push(Token::Text(self.ty)),
    {
        tokens.push(Token::Text(self.ty));
    }
}

/// The arguments of a decode step, and the length when the step decodes
/// an array.
pub struct Arguments<'a> {
    pub is_array: Option<ArrayLength<'a>>,
    pub args: Vec<Argument<'a>>,
}

/// Each argument's name (or type, when `types`), followed by a comma.
pub open spec fn listed(args: Seq<Argument>, types: bool) -> Seq<Token> {
    Seq::new(
        2 * args.len(),
        |i: int|
            if i % 2 == 1 {
                Token::Text(",")
            } else if types {
                Token::Text(args[i / 2].ty)
            } else {
                Token::Text(args[i / 2].ident)
            },
    )
}

/// The tokens of a tuple that lists `args`: for an array, nested after the
/// tokens `head` that introduce the length, and closed by `)`.
pub open spec fn tuple_tokens<'a>(
    is_array: bool,
    head: Seq<Token<'a>>,
    args: Seq<Argument<'a>>,
    types: bool,
) -> Seq<Token<'a>> {
    seq![Token::Text("(")] + (if is_array {
        head
    } else {
        Seq::empty()
    }) + listed(args, types) + (if is_array {
        seq![Token::Text(")")]
    } else {
        Seq::empty()
    }) + seq![Token::Text(")")]
}

/// Appends each argument's name (or type, when `types`) followed by a comma.
fn append_listed<'a>(args: &Vec<Argument<'a>>, types: bool, tokens: &mut Vec<Token<'a>>)
    ensures
        final(tokens)@ == old(tokens)@ + listed(args@, types),
{
    let mut i: usize = 0;
    while i < args.len()
        invariant
            i <= args@.len(),
            tokens@ == old(tokens)@ + listed(args@.take(i as int), types),
        decreases args@.len() - i,
    {
        let ghost before = tokens@;
        if types {
            args[i].to_tokens_type(tokens);
        } else {
            args[i].to_tokens_value(tokens);
        }
        tokens.push(Token::Text(","));
        assert(listed(args@.take(i + 1), types) =~= listed(args@.take(i as int), types) + seq![
            listed(args@.take(i + 1), types)[2 * i],
            Token::Text(","),
        ]);
        i = i + 1;
    }
    assert(args@.take(args@.len() as int) =~= args@);
}

impl<'a> Arguments<'a> {
    /// The arguments that a list of `name = "type"` entries declares, in
    /// order.
    pub fn parse_arguments(items: &[NestedMetaItem<'a>]) -> (r: Arguments<'a>)
        requires
            forall|i: int| 0 <= i < items@.len() ==> is_argument_entry(#[trigger] items@[i]),
        ensures
            r.is_array is None,
            r.args@ == items@.map_values(|item: NestedMetaItem<'a>| entry_argument(item)),
    {
        let mut arguments = Arguments { is_array: None, args: Vec::new() };
        let mut i: usize = 0;
        while i < items.len()
            invariant
                i <= items@.len(),
                forall|j: int| 0 <= j < items@.len() ==> is_argument_entry(#[trigger] items@[j]),
                arguments.is_array is None,
                arguments.args@ == items@.take(i as int).map_values(
                    |item: NestedMetaItem<'a>| entry_argument(item),
                ),
            decreases items@.len() - i,
        {
            let item = match &items[i] {
                NestedMetaItem::MetaItem(item) => item,
                NestedMetaItem::Literal(_) => {
                    assert(!is_argument_entry(items@[i as int]));
                    return arguments;
                },
            };
            let arg = Argument::from_meta_item(item);
            arguments.args.push(arg);
            assert(items@.take(i + 1).map_values(|item: NestedMetaItem<'a>| entry_argument(item))
                =~= items@.take(i as int).map_values(|item: NestedMetaItem<'a>| entry_argument(item)).push(arg));
            i = i + 1;
        }
        assert(items@.take(items@.len() as int) =~= items@);
        arguments
    }

    /// The three renderings of the arguments: as a pattern, as a type and
    /// as a call's argument.
    pub fn split(&self) -> (r: (ArgumentsDeclaration<'_>, ArgumentsDefinition<'_>, ArgumentsInvoke<'_>))
        ensures
            *r.0.0 == *self,
            *r.1.0 == *self,
            *r.2.0 == *self,
    {
        (ArgumentsDeclaration(self), ArgumentsDefinition(self), ArgumentsInvoke(self))
    }

    /// The arguments rendered as a pattern.
    pub fn declaration(&self) -> (r: ArgumentsDeclaration<'_>)
        ensures
            *r.0 == *self,
    {
        ArgumentsDeclaration(self)
    }

    /// The arguments rendered as a type.
    pub fn definition(&self) -> (r: ArgumentsDefinition<'_>)
        ensures
            *r.0 == *self,
    {
        ArgumentsDefinition(self)
    }

    /// The arguments rendered as a call's argument.
    pub fn invoke(&self) -> (r: ArgumentsInvoke<'_>)
        ensures
            *r.0 == *self,
    {
        ArgumentsInvoke(self)
    }
}

/// The arguments rendered as a type: `(ty, ...)`, or
/// `(usize, (ty, ...))` for an array.
pub struct ArgumentsDefinition<'a>(pub &'a Arguments<'a>);

impl<'a> ArgumentsDefinition<'a> {
    pub fn to_tokens(&self, tokens: &mut Vec<Token<'a>>)
        ensures
            final(tokens)@ == old(tokens)@ + tuple_tokens(
                self.0.is_array is Some,
                seq![Token::Text("usize, (")],
                self.0.args@,
                true,
            ),
    {
        let ghost start = tokens@;
        tokens.push(Token::Text("("));
        if self.0.is_array.is_some() {
            tokens.push(Token::Text("usize, ("));
        }
        append_listed(&self.0.args, true, tokens);
        if self.0.is_array.is_some() {
            tokens.push(Token::Text(")"));
        }
        tokens.push(Token::Text(")"));
        assert(tokens@ =~= start + tuple_tokens(
            self.0.is_array is Some,
            seq![Token::Text("usize, (")],
            self.0.args@,
            true,
        ));
    }
}

/// The arguments rendered as a pattern: `(ident, ...)`, or
/// `(length,(ident, ...))` for an array.
pub struct ArgumentsDeclaration<'a>(pub &'a Arguments<'a>);

impl<'a> ArgumentsDeclaration<'a> {
    pub fn to_tokens(&self, tokens: &mut Vec<Token<'a>>)
        ensures
            final(tokens)@ == old(tokens)@ + tuple_tokens(
                self.0.is_array is Some,
                seq![self.0.is_array->Some_0.spec_value(), Token::Text(",(")],
                self.0.args@,
                false,
            ),
    {
        let ghost start = tokens@;
        tokens.push(Token::Text("("));
        if let Some(length) = &self.0.is_array {
            length.to_tokens_value(tokens);
            tokens.push(Token::Text(",("));
        }
        append_listed(&self.0.args, false, tokens);
        if self.0.is_array.is_some() {
            tokens.push(Token::Text(")"));
        }
        tokens.push(Token::Text(")"));
        assert(tokens@ =~= start + tuple_tokens(
            self.0.is_array is Some,
            seq![self.0.is_array->Some_0.spec_value(), Token::Text(",(")],
            self.0.args@,
            false,
        ));
    }
}

/// The arguments rendered as a call's argument: `(ident, ...)`, or
/// `(length as usize, (ident, ...))` for an array.
pub struct ArgumentsInvoke<'a>(pub &'a Arguments<'a>);

impl<'a> ArgumentsInvoke<'a> {
    pub fn to_tokens(&self, tokens: &mut Vec<Token<'a>>)
        ensures
            final(tokens)@ == old(tokens)@ + tuple_tokens(
                self.0.is_array is Some,
                seq![self.0.is_array->Some_0.spec_value(), Token::Text(" as usize, (")],
                self.0.args@,
                false,
            ),
    {
        let ghost start = tokens@;
        tokens.push(Token::Text("("));
        if let Some(length) = &self.0.is_array {
            length.to_tokens_value(tokens);
            tokens.push(Token::Text(" as usize, ("));
        }
        append_listed(&self.0.args, false, tokens);
        if self.0.is_array.is_some() {
            tokens.push(Token::Text(")"));
        }
        tokens.push(Token::Text(")"));
        assert(tokens@ =~= start + tuple_tokens(
            self.0.is_array is Some,
            seq![self.0.is_array->Some_0.spec_value(), Token::Text(" as usize, (")],
            self.0.args@,
            false,
        ));
    }
}

} // verus!
