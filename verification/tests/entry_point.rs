use aya_syscall::entry_point::{MacroError, Syscall};
use proc_macro2::TokenStream;
use std::str::FromStr;

fn tokens(source: &str) -> TokenStream {
    TokenStream::from_str(source).unwrap()
}

fn expand(item: &str) -> String {
    let program = Syscall::parse(TokenStream::new(), tokens(item)).unwrap();
    program.expand().unwrap().to_string()
}

#[test]
fn test_syscall() {
    let prog = Syscall::parse(
        TokenStream::new(),
        tokens(
            "fn prog(ctx: ::aya_ebpf::programs::SyscallContext) -> i64 {
                0
            }",
        ),
    )
    .unwrap();
    let expanded = prog.expand().unwrap();
    let expected = tokens(
        "#[no_mangle]
        #[link_section = \"syscall\"]
        fn prog(ctx: *mut ::core::ffi::c_void) -> i64 {
            return prog(::aya_ebpf::programs::SyscallContext::new(ctx));

            #[inline(always)]
            fn prog(ctx: ::aya_ebpf::programs::SyscallContext) -> i64 {
                0
            }
        }",
    );
    assert_eq!(expected.to_string(), expanded.to_string());
}

#[test]
fn expansion_is_spelled_out() {
    let expanded = expand("fn prog(ctx: ::aya_ebpf::programs::SyscallContext) -> i64 { 0 }");
    assert_eq!(
        expanded,
        "# [no_mangle] # [link_section = \"syscall\"] \
         fn prog (ctx : * mut :: core :: ffi :: c_void) -> i64 { \
         return prog (:: aya_ebpf :: programs :: SyscallContext :: new (ctx)) ; \
         # [inline (always)] \
         fn prog (ctx : :: aya_ebpf :: programs :: SyscallContext) -> i64 { 0 } }"
    );
}

#[test]
fn entry_point_keeps_visibility_and_name() {
    let expanded = expand("pub fn my_syscall(ctx: SyscallContext) -> i64 { 7 }");
    let expected = tokens(
        "#[no_mangle]
        #[link_section = \"syscall\"]
        pub fn my_syscall(ctx: *mut ::core::ffi::c_void) -> i64 {
            return my_syscall(::aya_ebpf::programs::SyscallContext::new(ctx));

            #[inline(always)]
            pub fn my_syscall(ctx: SyscallContext) -> i64 {
                7
            }
        }",
    );
    assert_eq!(expected.to_string(), expanded);
}

#[test]
fn entry_point_keeps_restricted_visibility() {
    let expanded = expand("pub(crate) fn run(ctx: SyscallContext) -> i64 { 0 }");
    assert!(expanded.starts_with(
        "# [no_mangle] # [link_section = \"syscall\"] pub (crate) fn run (ctx : * mut :: core :: ffi :: c_void) -> i64 {"
    ));
}

#[test]
fn entry_point_keeps_the_function_as_written() {
    let item = "#[allow(unused)] fn prog(ctx: SyscallContext) -> i64 { let x = ctx; 1 + 2 }";
    let expanded = expand(item);
    let kept = tokens(item).to_string();
    assert!(expanded.ends_with(&format!("# [inline (always)] {} }}", kept)));
}

#[test]
fn entry_point_ignores_the_signature_of_the_function() {
    let expanded = expand("fn two(a: u8, b: u8) -> u8 { a }");
    assert!(expanded.contains("fn two (ctx : * mut :: core :: ffi :: c_void) -> i64 {"));
    assert!(expanded.contains("return two (:: aya_ebpf :: programs :: SyscallContext :: new (ctx)) ;"));
}

#[test]
fn attribute_arguments_are_refused() {
    let res = Syscall::parse(
        tokens("name = \"x\""),
        tokens("fn prog(ctx: SyscallContext) -> i64 { 0 }"),
    );
    assert!(matches!(res, Err(MacroError::UnexpectedAttribute)));
}

#[test]
fn attribute_arguments_are_refused_before_the_item_is_read() {
    let res = Syscall::parse(tokens("x"), tokens("struct NotAFunction;"));
    assert!(matches!(res, Err(MacroError::UnexpectedAttribute)));
}

#[test]
fn item_that_is_no_function_is_refused() {
    let res = Syscall::parse(TokenStream::new(), tokens("struct NotAFunction;"));
    assert!(matches!(res, Err(MacroError::Syntax(_))));
}

#[test]
fn empty_item_is_refused() {
    let res = Syscall::parse(TokenStream::new(), TokenStream::new());
    assert!(matches!(res, Err(MacroError::Syntax(_))));
}

#[test]
fn tokens_after_the_function_are_refused() {
    let res = Syscall::parse(
        TokenStream::new(),
        tokens("fn prog(ctx: SyscallContext) -> i64 { 0 } fn more() {}"),
    );
    assert!(matches!(res, Err(MacroError::Syntax(_))));
}

#[test]
fn from_parsed_keeps_the_function() {
    let item: syn::ItemFn = syn::parse2(tokens("fn prog(ctx: SyscallContext) -> i64 { 0 }")).unwrap();
    let program = Syscall::from_parsed(Ok(item)).unwrap();
    let expanded = program.expand().unwrap().to_string();
    assert!(expanded.contains("fn prog (ctx : * mut :: core :: ffi :: c_void) -> i64 {"));
}

#[test]
fn from_parsed_keeps_the_error() {
    let error = match syn::parse2::<syn::ItemFn>(tokens("struct NotAFunction;")) {
        Ok(_) => panic!("a struct is no function"),
        Err(error) => error,
    };
    let message = error.to_string();
    match Syscall::from_parsed(Err(error)) {
        Err(MacroError::Syntax(kept)) => assert_eq!(kept.to_string(), message),
        _ => panic!("the error of the parser is handed on"),
    }
}

#[test]
fn expansion_parses_as_a_function_again() {
    let expanded = Syscall::parse(
        TokenStream::new(),
        tokens("fn prog(ctx: SyscallContext) -> i64 { 0 }"),
    )
    .unwrap()
    .expand()
    .unwrap();
    let outer: syn::ItemFn = syn::parse2(expanded).unwrap();
    assert_eq!(outer.sig.ident.to_string(), "prog");
    assert_eq!(outer.sig.inputs.len(), 1);
    assert_eq!(outer.attrs.len(), 2);
    assert_eq!(outer.block.stmts.len(), 2);
}
