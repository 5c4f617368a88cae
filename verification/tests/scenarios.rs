use bevy_ressys::model::TransformError;
use bevy_ressys::{res_system, ressys_fmt};

/// Writes the tokens of a stream into `out`, each followed by a space,
/// whatever the spacing between them was.
fn flatten(stream: proc_macro2::TokenStream, out: &mut String) {
    for tree in stream {
        match tree {
            proc_macro2::TokenTree::Group(group) => {
                let (open, close) = match group.delimiter() {
                    proc_macro2::Delimiter::Parenthesis => ("( ", ") "),
                    proc_macro2::Delimiter::Brace => ("{ ", "} "),
                    proc_macro2::Delimiter::Bracket => ("[ ", "] "),
                    proc_macro2::Delimiter::None => ("", ""),
                };
                out.push_str(open);
                flatten(group.stream(), out);
                out.push_str(close);
            }
            proc_macro2::TokenTree::Punct(punct) => {
                out.push(punct.as_char());
                out.push(' ');
            }
            other => {
                out.push_str(&other.to_string());
                out.push(' ');
            }
        }
    }
}

/// The tokens of a text, written out in one fixed way.
fn tokens(text: &str) -> String {
    let mut out = String::new();
    flatten(text.parse::<proc_macro2::TokenStream>().unwrap(), &mut out);
    out
}

/// The nested function of a replacement.
fn nested(replacement: &syn::ItemFn) -> syn::ItemFn {
    match &replacement.block.stmts[0] {
        syn::Stmt::Item(syn::Item::Fn(inner)) => inner.clone(),
        _ => panic!("the body does not start with a function"),
    }
}

/// The names that a signature binds, `None` for an input that binds none.
fn bound_names(sig: &syn::Signature) -> Vec<Option<(String, bool)>> {
    sig.inputs
        .iter()
        .map(|arg| match arg {
            syn::FnArg::Typed(typed) => match &*typed.pat {
                syn::Pat::Ident(p) => Some((p.ident.to_string(), p.mutability.is_some())),
                _ => None,
            },
            syn::FnArg::Receiver(_) => None,
        })
        .collect()
}

#[test]
fn boom_is_reported_directly() {
    let out = res_system(
        "report::warn",
        "fn boom() -> Result<(), String> { Err(\"boom\".to_owned()) }",
    )
    .unwrap();
    let expected = "fn boom() { \
        fn inner_fn_for_res_system() -> Result<(), String> { Err(\"boom\".to_owned()) } \
        if let Err(err) = inner_fn_for_res_system() { report::warn!(err) } \
    }";
    assert_eq!(tokens(&out), tokens(expected));
    let parsed = syn::parse_str::<syn::ItemFn>(&out).unwrap();
    assert_eq!(parsed.sig.ident.to_string(), "boom");
    assert_eq!(parsed.sig.inputs.len(), 0);
    assert!(matches!(parsed.sig.output, syn::ReturnType::Default));
    let inner = nested(&parsed);
    assert_eq!(inner.sig.inputs.len(), 0);
    assert!(matches!(inner.sig.output, syn::ReturnType::Type(..)));
}

#[test]
fn boom_is_reported_through_the_template() {
    let out = ressys_fmt(
        "report::warn",
        "fn boom() -> Result<(), String> { Err(\"boom\".to_owned()) }",
    )
    .unwrap();
    let expected = "fn boom() { \
        fn inner_fn_for_res_system() -> Result<(), String> { Err(\"boom\".to_owned()) } \
        if let Err(err) = inner_fn_for_res_system() { report::warn!(\"{}\", err) } \
    }";
    assert_eq!(tokens(&out), tokens(expected));
}

#[test]
fn the_two_entry_points_differ_only_in_the_report() {
    let source = "fn f(a: u8) -> Result<(), E> { g(a) }";
    let direct = res_system("warn", source).unwrap();
    let formatted = ressys_fmt("warn", source).unwrap();
    assert_ne!(direct, formatted);
    assert!(direct.ends_with("{ warn ! ( err ) } }"));
    assert!(formatted.ends_with("{ warn ! ( \"{}\" , err ) } }"));
    let cut = direct.len() - "{ warn ! ( err ) } }".len();
    assert_eq!(direct[..cut], formatted[..cut]);
}

#[test]
fn simple_parameters_are_kept_and_forwarded_in_order() {
    let out = res_system(
        "bevy::log::warn",
        "fn system(commands: Commands, query: Query<Entity, With<A>>, time: Res<Time>) \
         -> Result<(), String> { run(commands, query, time) }",
    )
    .unwrap();
    let parsed = syn::parse_str::<syn::ItemFn>(&out).unwrap();
    assert!(matches!(parsed.sig.output, syn::ReturnType::Default));
    assert_eq!(
        bound_names(&parsed.sig),
        vec![
            Some(("commands".to_string(), false)),
            Some(("query".to_string(), false)),
            Some(("time".to_string(), false)),
        ]
    );
    let inner = nested(&parsed);
    assert_eq!(bound_names(&inner.sig), bound_names(&parsed.sig));
    assert!(tokens(&out).contains(&tokens(
        "if let Err(err) = inner_fn_for_res_system(commands, query, time) \
         { bevy::log::warn!(err) }"
    )));
}

#[test]
fn the_nested_name_does_not_follow_the_function_name() {
    let first = res_system("warn", "fn first() -> Result<(), E> { Ok(()) }").unwrap();
    let second = res_system("error", "fn second(x: u8) -> Result<(), E> { Ok(()) }").unwrap();
    let first = syn::parse_str::<syn::ItemFn>(&first).unwrap();
    let second = syn::parse_str::<syn::ItemFn>(&second).unwrap();
    assert_eq!(nested(&first).sig.ident.to_string(), "inner_fn_for_res_system");
    assert_eq!(nested(&second).sig.ident.to_string(), "inner_fn_for_res_system");
    assert_eq!(first.sig.ident.to_string(), "first");
    assert_eq!(second.sig.ident.to_string(), "second");
}

#[test]
fn mutability_is_dropped_outside_and_kept_inside() {
    let out = res_system(
        "bevy::log::warn",
        "fn warn_system3(mut q: Query<Entity, With<A>>, n: u8) -> Result<(), String> { Ok(()) }",
    )
    .unwrap();
    let parsed = syn::parse_str::<syn::ItemFn>(&out).unwrap();
    assert_eq!(
        bound_names(&parsed.sig),
        vec![Some(("q".to_string(), false)), Some(("n".to_string(), false))]
    );
    assert_eq!(
        bound_names(&nested(&parsed).sig),
        vec![Some(("q".to_string(), true)), Some(("n".to_string(), false))]
    );
    assert!(tokens(&out).contains(&tokens("inner_fn_for_res_system(q, n)")));
    let expected = "fn warn_system3(q: Query<Entity, With<A>>, n: u8) { \
        fn inner_fn_for_res_system(mut q: Query<Entity, With<A>>, n: u8) \
            -> Result<(), String> { Ok(()) } \
        if let Err(err) = inner_fn_for_res_system(q, n) { bevy::log::warn!(err) } \
    }";
    assert_eq!(tokens(&out), tokens(expected));
}

#[test]
fn a_reference_binding_loses_mut_and_is_forwarded_by_name() {
    let out = res_system("warn", "fn f(ref mut a: u8) -> Result<(), E> { Ok(()) }").unwrap();
    let expected = "fn f(ref a: u8) { \
        fn inner_fn_for_res_system(ref mut a: u8) -> Result<(), E> { Ok(()) } \
        if let Err(err) = inner_fn_for_res_system(a) { warn!(err) } \
    }";
    assert_eq!(tokens(&out), tokens(expected));
}

#[test]
fn a_receiver_is_marked_at_its_own_position() {
    let out = res_system("warn", "fn f(&mut self, a: u8) -> Result<(), E> { Ok(()) }").unwrap();
    let expected = "fn f(&mut self, a: u8) { \
        fn inner_fn_for_res_system(&mut self, a: u8) -> Result<(), E> { Ok(()) } \
        if let Err(err) = inner_fn_for_res_system(\
            compile_error!(\"Ran into Reciever type in macro\"), a) { warn!(err) } \
    }";
    assert_eq!(tokens(&out), tokens(expected));
}

#[test]
fn a_destructuring_parameter_is_marked_and_the_rest_is_emitted() {
    let out = ressys_fmt(
        "log::error",
        "fn f(a: u8, (b, c): (u8, u8), mut d: u8, _: u8) -> Result<(), E> { Ok(()) }",
    )
    .unwrap();
    let expected = "fn f(a: u8, (b, c): (u8, u8), d: u8, _: u8) { \
        fn inner_fn_for_res_system(a: u8, (b, c): (u8, u8), mut d: u8, _: u8) \
            -> Result<(), E> { Ok(()) } \
        if let Err(err) = inner_fn_for_res_system(\
            a, compile_error!(\"Ran into a parameter that is not a plain name in macro\"), d, \
            compile_error!(\"Ran into a parameter that is not a plain name in macro\")) \
            { log::error!(\"{}\", err) } \
    }";
    assert_eq!(tokens(&out), tokens(expected));
    assert!(syn::parse_str::<syn::ItemFn>(&out).is_ok());
}

#[test]
fn a_binding_with_a_subpattern_is_unsupported() {
    let out = res_system("warn", "fn f(p @ (a, b): (u8, u8)) -> Result<(), E> { Ok(()) }")
        .unwrap();
    let expected = "fn f(p @ (a, b): (u8, u8)) { \
        fn inner_fn_for_res_system(p @ (a, b): (u8, u8)) -> Result<(), E> { Ok(()) } \
        if let Err(err) = inner_fn_for_res_system(\
            compile_error!(\"Ran into a parameter that is not a plain name in macro\")) \
            { warn!(err) } \
    }";
    assert_eq!(tokens(&out), tokens(expected));
}

#[test]
fn a_comma_after_the_last_parameter_is_kept_in_both_signatures() {
    let out = res_system("warn", "fn f(mut a: u8, b: u8,) -> Result<(), E> { Ok(()) }").unwrap();
    let expected = "fn f(a: u8, b: u8,) { \
        fn inner_fn_for_res_system(mut a: u8, b: u8,) -> Result<(), E> { Ok(()) } \
        if let Err(err) = inner_fn_for_res_system(a, b) { warn!(err) } \
    }";
    assert_eq!(tokens(&out), tokens(expected));
    let parsed = syn::parse_str::<syn::ItemFn>(&out).unwrap();
    assert!(parsed.sig.inputs.trailing_punct());
    assert!(nested(&parsed).sig.inputs.trailing_punct());
    let out = res_system("warn", "fn f(mut a: u8, b: u8) -> Result<(), E> { Ok(()) }").unwrap();
    let parsed = syn::parse_str::<syn::ItemFn>(&out).unwrap();
    assert!(!parsed.sig.inputs.trailing_punct());
    assert!(!nested(&parsed).sig.inputs.trailing_punct());
}

#[test]
fn a_reader_pins_the_lexer_again_after_it_was_released() {
    let source = "fn f<'a>(a: &'a Vec<Vec<u8>>) -> Result<(), E> { Ok(()) }";
    let before = res_system("log::warn", source).unwrap();
    proc_macro2::fallback::unforce();
    let after = res_system("log::warn", source).unwrap();
    assert_eq!(before, after);
}

#[test]
fn everything_around_the_signature_is_kept() {
    let out = res_system(
        "::bevy::log::warn",
        "#[inline] /// doc\n pub(crate) async unsafe fn f<'a, T: Clone>(#[tag] mut a: &'a T) \
         -> Result<(), E> where T: Send { #![allow(unused)] let b = a.clone(); Ok(()) }",
    )
    .unwrap();
    let expected = "#[inline] #[doc = \" doc\"] \
        pub(crate) async unsafe fn f<'a, T: Clone>(#[tag] a: &'a T) where T: Send { \
        #![allow(unused)] \
        #[inline] #[doc = \" doc\"] \
        pub(crate) async unsafe fn inner_fn_for_res_system<'a, T: Clone>(#[tag] mut a: &'a T) \
            -> Result<(), E> where T: Send { #![allow(unused)] let b = a.clone(); Ok(()) } \
        if let Err(err) = inner_fn_for_res_system(a) { ::bevy::log::warn!(err) } \
    }";
    assert_eq!(tokens(&out), tokens(expected));
    assert!(syn::parse_str::<syn::ItemFn>(&out).is_ok());
}

#[test]
fn a_variadic_argument_follows_the_parameters() {
    let out = res_system(
        "warn",
        "unsafe extern \"C\" fn f(a: u8, ...) -> Result<(), E> { Ok(()) }",
    )
    .unwrap();
    let expected = "unsafe extern \"C\" fn f(a: u8, ...) { \
        unsafe extern \"C\" fn inner_fn_for_res_system(a: u8, ...) -> Result<(), E> { Ok(()) } \
        if let Err(err) = inner_fn_for_res_system(a) { warn!(err) } \
    }";
    assert_eq!(tokens(&out), tokens(expected));
}

#[test]
fn a_single_segment_names_a_macro() {
    let out = res_system("info", "fn info_system(_commands: Commands) -> Result<(), String> \
        { Err(format!(\"This is a info system\")) }")
    .unwrap();
    assert!(tokens(&out).contains(&tokens(
        "if let Err(err) = inner_fn_for_res_system(_commands) { info!(err) }"
    )));
}

#[test]
fn a_text_that_is_no_function_is_an_item_error() {
    let r = res_system("warn", "struct S;");
    assert!(matches!(r, Err(TransformError::Item { .. })));
    let expected = syn::parse_str::<syn::ItemFn>("struct S;").err().unwrap().to_string();
    assert_eq!(r.unwrap_err().message(), expected);
    assert!(matches!(ressys_fmt("warn", "fn f("), Err(TransformError::Item { .. })));
    assert!(matches!(res_system("warn", ""), Err(TransformError::Item { .. })));
    assert!(matches!(
        res_system("warn", "fn f() -> Result<(), E> { Ok(()) } fn g() {}"),
        Err(TransformError::Item { .. })
    ));
}

#[test]
fn a_text_that_is_no_path_is_a_payload_error() {
    let source = "fn f() -> Result<(), E> { Ok(()) }";
    let r = res_system("1 + 2", source);
    assert!(matches!(r, Err(TransformError::AttributePayload { .. })));
    let expected = syn::parse_str::<syn::ExprPath>("1 + 2").err().unwrap().to_string();
    assert_eq!(r.unwrap_err().message(), expected);
    for attr in ["", "a::", "a::b c", "\"warn\"", "a.b"] {
        assert!(
            matches!(ressys_fmt(attr, source), Err(TransformError::AttributePayload { .. })),
            "{}",
            attr
        );
    }
}

#[test]
fn a_path_that_names_no_macro_is_a_payload_error() {
    let source = "fn f() -> Result<(), E> { Ok(()) }";
    for attr in ["<T as Trait>::warn", "log::<T>::warn", "log::warn::<T>", "#[cold] log::warn"] {
        let r = res_system(attr, source);
        assert_eq!(
            r,
            Err(TransformError::AttributePayload {
                message: bevy_ressys::reporter::NOT_A_MACRO_PATH.to_string()
            }),
            "{}",
            attr
        );
    }
}

#[test]
fn the_error_of_the_function_comes_before_that_of_the_path() {
    assert!(matches!(res_system("1 + 2", "struct S;"), Err(TransformError::Item { .. })));
    assert!(matches!(
        res_system("1 + 2", "fn f() {}"),
        Err(TransformError::AttributePayload { .. })
    ));
}

#[test]
fn a_return_type_of_any_shape_is_not_checked() {
    let out = res_system("warn", "fn f() -> u8 { 1 }").unwrap();
    let expected = "fn f() { fn inner_fn_for_res_system() -> u8 { 1 } \
        if let Err(err) = inner_fn_for_res_system() { warn!(err) } }";
    assert_eq!(tokens(&out), tokens(expected));
    let out = res_system("warn", "fn g() {}").unwrap();
    let expected = "fn g() { fn inner_fn_for_res_system() {} \
        if let Err(err) = inner_fn_for_res_system() { warn!(err) } }";
    assert_eq!(tokens(&out), tokens(expected));
}
