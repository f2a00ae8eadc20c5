use decl::args::{Argument, Arguments, ArrayLength, Literal, MetaItem, NestedMetaItem, Token};

fn sample(is_array: Option<ArrayLength<'static>>) -> Arguments<'static> {
    Arguments {
        is_array,
        args: vec![
            Argument { ident: "buffer", ty: "&'buf [u8]" },
            Argument { ident: "num_tables", ty: "usize" },
        ],
    }
}

fn texts(tokens: &[Token]) -> Vec<String> {
    tokens
        .iter()
        .map(|t| match t {
            Token::Text(s) => s.to_string(),
            Token::Usize(n) => format!("{}usize", n),
        })
        .collect()
}

#[test]
fn argument_tokens_plain() {
    let arguments = sample(None);
    let (dec, def, inv) = arguments.split();
    let mut tokens = Vec::new();
    dec.to_tokens(&mut tokens);
    assert_eq!(texts(&tokens), vec!["(", "buffer", ",", "num_tables", ",", ")"]);
    let mut tokens = Vec::new();
    def.to_tokens(&mut tokens);
    assert_eq!(texts(&tokens), vec!["(", "&'buf [u8]", ",", "usize", ",", ")"]);
    let mut tokens = Vec::new();
    inv.to_tokens(&mut tokens);
    assert_eq!(texts(&tokens), vec!["(", "buffer", ",", "num_tables", ",", ")"]);
}

#[test]
fn argument_tokens_array() {
    let arguments = sample(Some(ArrayLength::Variable("num_glyphs")));
    let mut tokens = Vec::new();
    arguments.declaration().to_tokens(&mut tokens);
    assert_eq!(
        texts(&tokens),
        vec!["(", "num_glyphs", ",(", "buffer", ",", "num_tables", ",", ")", ")"]
    );
    let mut tokens = Vec::new();
    arguments.definition().to_tokens(&mut tokens);
    assert_eq!(
        texts(&tokens),
        vec!["(", "usize, (", "&'buf [u8]", ",", "usize", ",", ")", ")"]
    );
    let mut tokens = Vec::new();
    arguments.invoke().to_tokens(&mut tokens);
    assert_eq!(
        texts(&tokens),
        vec!["(", "num_glyphs", " as usize, (", "buffer", ",", "num_tables", ",", ")", ")"]
    );
}

#[test]
fn argument_tokens_constant_length() {
    let arguments = Arguments { is_array: Some(ArrayLength::Constant(256)), args: Vec::new() };
    let mut tokens = Vec::new();
    arguments.invoke().to_tokens(&mut tokens);
    assert_eq!(tokens, vec![Token::Text("("), Token::Usize(256), Token::Text(" as usize, ("), Token::Text(")"), Token::Text(")")]);
    let mut tokens = Vec::new();
    ArrayLength::Constant(4).to_tokens_type(&mut tokens);
    assert_eq!(tokens, vec![Token::Text("usize")]);
}

#[test]
fn arguments_from_entries() {
    let items = [
        NestedMetaItem::MetaItem(MetaItem::NameValue("thing", Literal::Str("u32"))),
        NestedMetaItem::MetaItem(MetaItem::NameValue("buffer", Literal::Str("&'buf [u8]"))),
    ];
    let arguments = Arguments::parse_arguments(&items);
    assert!(arguments.is_array.is_none());
    assert_eq!(
        arguments.args,
        vec![Argument { ident: "thing", ty: "u32" }, Argument { ident: "buffer", ty: "&'buf [u8]" }]
    );
    assert!(Arguments::parse_arguments(&[]).args.is_empty());
    let one = Argument::from_meta_item(&MetaItem::NameValue("n", Literal::Str("usize")));
    assert_eq!(one, Argument { ident: "n", ty: "usize" });
}

#[test]
fn array_length_from_literal() {
    assert_eq!(ArrayLength::from_lit(&Literal::Str("num_tables")), ArrayLength::Variable("num_tables"));
    assert_eq!(ArrayLength::from_lit(&Literal::Int(256)), ArrayLength::Constant(256));
}
