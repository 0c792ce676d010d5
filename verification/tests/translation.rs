use function_codegen::attributes::{AttrArgs, AttrKind, Attribute, Lit, NestedMeta};
use function_codegen::context::GotocCtx;
use function_codegen::function::unsupported_msg;
use function_codegen::goto::{Body, Expr, Location, Stmt, Symbol, SymbolRef, Type};
use function_codegen::metadata::{Diagnostic, HarnessMetadata, Level};
use function_codegen::mir::{FnTy, Instance, LocalDecl, LocalRole, Mir, ParamTy};
use std::cell::RefCell;
use function_codegen::prelude::tuple_layout_matches;

fn loc(file: &str, line: u64) -> Location {
    Location { file: file.to_string(), line }
}

fn plain(name: &str) -> Type {
    Type::Plain { name: name.to_string() }
}

fn code(signature: &str) -> Type {
    Type::Code { signature: signature.to_string() }
}

fn tuple_type(tag: &str, fields: &[&str]) -> Type {
    Type::Struct { tag: tag.to_string(), fields: fields.iter().map(|f| f.to_string()).collect() }
}

fn local(ty: Type, line: u64, user_variable: bool) -> LocalDecl {
    LocalDecl { ty, span: loc("a.rs", line), user_variable }
}

/// A block translator: block 0 becomes two statements, every other block one.
fn block(bb: usize) -> Vec<Stmt> {
    if bb == 0 {
        vec![code_stmt("var_2 = 1"), code_stmt("goto bb1")]
    } else {
        vec![code_stmt(&format!("return from bb{}", bb))]
    }
}

/// A block translator that must not be called.
fn never(bb: usize) -> Vec<Stmt> {
    panic!("basic block {} was translated", bb)
}

fn code_stmt(text: &str) -> Stmt {
    Stmt::Code { text: text.to_string() }
}

fn proof_marker(line: u64) -> Attribute {
    Attribute {
        kind: AttrKind::Normal {
            path: vec!["kanitool".to_string(), "proof".to_string()],
            args: AttrArgs::Word,
        },
        span: loc("a.rs", line),
    }
}

fn unwind(value: u128, line: u64) -> Attribute {
    Attribute {
        kind: AttrKind::Normal {
            path: vec!["kanitool".to_string(), "unwind".to_string()],
            args: AttrArgs::List(vec![NestedMeta::Literal(Lit::Int(value))]),
        },
        span: loc("a.rs", line),
    }
}

/// `fn f(a: u8) -> u32 { let t: u16; .. }`, with two basic blocks.
fn simple(name: &str, readable_name: &str) -> Instance {
    Instance {
        name: name.to_string(),
        readable_name: readable_name.to_string(),
        fn_ty: FnTy::FnDef { inputs: vec![ParamTy::Other] },
        fn_typ: code("unsigned int f(unsigned char)"),
        mir: Mir {
            local_decls: vec![
                local(plain("unsigned int"), 7, false),
                local(plain("unsigned char"), 7, true),
                local(plain("unsigned short"), 8, true),
                local(plain("bool"), 9, false),
            ],
            arg_count: 1,
            spread_arg: None,
            basic_blocks: 2,
            span: loc("a.rs", 7),
        },
        attrs: Vec::new(),
    }
}

/// The shim that calls a function through `Fn::call`: the callee, then the
/// arguments as one tuple, which arrives spread over three parameters.
fn tupled() -> Instance {
    Instance {
        name: "call".to_string(),
        readable_name: "<fn(u8, usize, Opt) -> usize as Fn<(u8, usize, Opt)>>::call".to_string(),
        fn_ty: FnTy::FnDef {
            inputs: vec![
                ParamTy::Other,
                ParamTy::Tuple(vec![
                    plain("unsigned char"),
                    plain("unsigned long int"),
                    plain("struct _3159196586427472662"),
                ]),
            ],
        },
        fn_typ: code("unsigned long int call(fnptr, unsigned char, unsigned long int, struct)"),
        mir: Mir {
            local_decls: vec![
                local(plain("unsigned long int"), 20, false),
                local(plain("fnptr"), 20, false),
                local(tuple_type("_8098103865751214180", &["1", "0", "2"]), 21, false),
            ],
            arg_count: 2,
            spread_arg: Some(2),
            basic_blocks: 1,
            span: loc("a.rs", 20),
        },
        attrs: Vec::new(),
    }
}

fn declared(instance: &Instance) -> GotocCtx {
    let mut ctx = GotocCtx::new();
    ctx.declare_function(instance.clone());
    ctx
}

fn translated(instance: &Instance) -> GotocCtx {
    let mut ctx = declared(instance);
    assert!(ctx.can_codegen_function(instance));
    ctx.codegen_function(instance.clone(), block);
    ctx
}

fn variable(name: &str, base_name: &str, ty: Type, line: u64, hidden: bool) -> Symbol {
    Symbol {
        name: name.to_string(),
        base_name: base_name.to_string(),
        typ: ty,
        location: loc("a.rs", line),
        is_hidden: hidden,
        body: None,
    }
}

fn decl(name: &str, ty: Type, line: u64) -> Stmt {
    Stmt::Decl { lhs: SymbolRef { name: name.to_string(), typ: ty }, value: None, loc: loc("a.rs", line) }
}

#[test]
fn a_declared_function_is_in_the_table_without_a_body() {
    let f = simple("M", "f");
    let ctx = declared(&f);
    let sym = ctx.symbol_table.lookup("M").unwrap();
    assert_eq!(
        *sym,
        Symbol {
            name: "M".to_string(),
            base_name: "f".to_string(),
            typ: code("unsigned int f(unsigned char)"),
            location: loc("a.rs", 7),
            is_hidden: false,
            body: None,
        }
    );
    assert!(sym.is_function_declaration());
    assert!(ctx.current_fn.is_none());
    assert!(ctx.proof_harnesses.is_empty());
    assert!(ctx.diagnostics.is_empty());
}

#[test]
fn declaring_again_keeps_the_symbol_that_is_there() {
    let f = simple("M", "f");
    let mut ctx = translated(&f);
    let before = ctx.symbol_table.lookup("M").unwrap().clone();
    assert!(before.body.is_some());
    ctx.declare_function(f);
    assert_eq!(*ctx.symbol_table.lookup("M").unwrap(), before);
}

#[test]
fn declaration_then_definition() {
    let f = simple("M", "f");
    let mut ctx = GotocCtx::new();
    assert!(ctx.symbol_table.lookup("M").is_none());
    assert!(!ctx.can_codegen_function(&f));
    ctx.declare_function(f.clone());
    assert!(ctx.symbol_table.lookup("M").unwrap().body.is_none());
    assert!(ctx.can_codegen_function(&f));
    ctx.codegen_function(f, block);
    let sym = ctx.symbol_table.lookup("M").unwrap();
    assert!(sym.body.is_some());
    assert!(sym.is_function_definition());
    assert_eq!(sym.typ, code("unsigned int f(unsigned char)"));
}

#[test]
fn a_function_is_translated_into_one_body() {
    let ctx = translated(&simple("M", "f"));
    let sym = ctx.symbol_table.lookup("M").unwrap();
    assert_eq!(
        sym.body,
        Some(Body {
            stmts: vec![
                decl("M::1::var_2", plain("unsigned short"), 8),
                decl("M::1::var_3", plain("bool"), 9),
                code_stmt("var_2 = 1"),
                code_stmt("goto bb1"),
                code_stmt("return from bb1"),
            ],
            loc: loc("a.rs", 7),
        })
    );
    assert!(ctx.current_fn.is_none());
    assert!(ctx.diagnostics.is_empty());
    assert!(ctx.proof_harnesses.is_empty());
}

#[test]
fn every_local_slot_gets_its_symbol() {
    let ctx = translated(&simple("M", "f"));
    let table = &ctx.symbol_table;
    assert_eq!(
        table.lookup("M::1::var_0"),
        Some(&variable("M::1::var_0", "var_0", plain("unsigned int"), 7, true))
    );
    assert_eq!(
        table.lookup("M::1::var_1"),
        Some(&variable("M::1::var_1", "var_1", plain("unsigned char"), 7, false))
    );
    assert_eq!(
        table.lookup("M::1::var_2"),
        Some(&variable("M::1::var_2", "var_2", plain("unsigned short"), 8, false))
    );
    assert_eq!(
        table.lookup("M::1::var_3"),
        Some(&variable("M::1::var_3", "var_3", plain("bool"), 9, true))
    );
    assert!(table.lookup("M::1::var_4").is_none());
}

#[test]
fn the_return_slot_and_the_parameters_are_not_declared_in_the_body() {
    let mut f = simple("M", "f");
    f.mir.arg_count = 3;
    let ctx = translated(&f);
    let body = ctx.symbol_table.lookup("M").unwrap().body.clone().unwrap();
    assert_eq!(
        body.stmts,
        vec![code_stmt("var_2 = 1"), code_stmt("goto bb1"), code_stmt("return from bb1")]
    );
    let mut g = simple("M", "f");
    g.mir.arg_count = 0;
    let ctx = translated(&g);
    let body = ctx.symbol_table.lookup("M").unwrap().body.clone().unwrap();
    assert_eq!(body.stmts.len(), 6);
    assert_eq!(body.stmts[0], decl("M::1::var_1", plain("unsigned char"), 7));
}

#[test]
fn the_role_of_a_slot_goes_by_its_index() {
    let f = simple("M", "f");
    assert_eq!(f.mir.role(0), LocalRole::ReturnSlot);
    assert_eq!(f.mir.role(1), LocalRole::DeclaredArgument);
    assert_eq!(f.mir.role(2), LocalRole::OrdinaryLocal);
    assert_eq!(f.mir.role(3), LocalRole::OrdinaryLocal);
    let t = tupled();
    assert_eq!(t.mir.role(0), LocalRole::ReturnSlot);
    assert_eq!(t.mir.role(1), LocalRole::DeclaredArgument);
    assert_eq!(t.mir.role(2), LocalRole::SpreadArgument);
}

#[test]
fn a_function_without_blocks_or_locals_gets_an_empty_body() {
    let mut f = simple("M", "f");
    f.mir.local_decls = Vec::new();
    f.mir.basic_blocks = 0;
    let ctx = translated(&f);
    assert_eq!(
        ctx.symbol_table.lookup("M").unwrap().body,
        Some(Body { stmts: Vec::new(), loc: loc("a.rs", 7) })
    );
}

#[test]
fn translating_again_warns_and_keeps_the_body() {
    let f = simple("M", "f");
    let mut ctx = translated(&f);
    let before = ctx.symbol_table.lookup("M").unwrap().clone();
    let local_before = ctx.symbol_table.lookup("M::1::var_2").unwrap().clone();
    assert!(ctx.can_codegen_function(&f));
    ctx.codegen_function(f, never);
    assert_eq!(*ctx.symbol_table.lookup("M").unwrap(), before);
    assert_eq!(*ctx.symbol_table.lookup("M::1::var_2").unwrap(), local_before);
    assert_eq!(
        ctx.diagnostics,
        vec![Diagnostic {
            level: Level::Warning,
            span: loc("a.rs", 7),
            message: "Double codegen of M".to_string(),
        }]
    );
    assert!(ctx.current_fn.is_none());
}

#[test]
fn translating_again_records_no_second_harness() {
    let mut f = simple("M", "f");
    f.attrs = vec![proof_marker(6)];
    let mut ctx = translated(&f);
    assert_eq!(ctx.proof_harnesses.len(), 1);
    ctx.codegen_function(f, never);
    assert_eq!(ctx.proof_harnesses.len(), 1);
    assert_eq!(ctx.diagnostics.len(), 1);
    assert_eq!(ctx.diagnostics[0].level, Level::Warning);
}

#[test]
fn a_changed_instance_does_not_replace_a_body_that_is_there() {
    let f = simple("M", "f");
    let mut ctx = translated(&f);
    let before = ctx.symbol_table.lookup("M").unwrap().clone();
    let mut g = simple("M", "f");
    g.mir.basic_blocks = 5;
    ctx.codegen_function(g, never);
    assert_eq!(*ctx.symbol_table.lookup("M").unwrap(), before);
}

#[test]
fn an_unsupported_function_gets_the_stub() {
    let f = simple("M", "std::thread::local::KEY::__getit");
    let ctx = translated(&f);
    let sym = ctx.symbol_table.lookup("M").unwrap();
    assert_eq!(
        sym.body,
        Some(Body {
            stmts: vec![Stmt::Unsupported {
                message:
                    "The function std::thread::local::KEY::__getit is not currently supported by Kani"
                        .to_string(),
                loc: loc("a.rs", 7),
            }],
            loc: loc("a.rs", 7),
        })
    );
    assert!(ctx.current_fn.is_none());
    assert!(ctx.diagnostics.is_empty());
}

#[test]
fn the_blocks_of_an_unsupported_function_are_not_translated() {
    let names = [
        "fmt::ArgumentV1::<'a>::as_usize",
        "KEY::__getit",
        "bridge::client::Client::run",
        "bridge::closure::Closure::<'a, A, R>::call",
        "<std::future::from_generator::GenFuture<T> as std::future::Future>::poll",
        "tokio_util::sync::reusable_box::ReusableBoxFuture::<T>::new",
        "tokio::sync::Semaphore::acquire_owned::{closure#0}",
    ];
    for name in names.iter() {
        let f = simple("M", name);
        let mut ctx = declared(&f);
        assert!(ctx.can_codegen_function(&f));
        ctx.codegen_function(f, never);
        assert_eq!(ctx.symbol_table.lookup("M").unwrap().body.as_ref().unwrap().stmts.len(), 1);
    }
}

#[test]
fn the_blocks_are_translated_once_each_in_program_order() {
    let mut f = simple("M", "f");
    f.mir.basic_blocks = 4;
    let calls: RefCell<Vec<usize>> = RefCell::new(Vec::new());
    let mut ctx = declared(&f);
    ctx.codegen_function(f, |bb: usize| {
        calls.borrow_mut().push(bb);
        vec![code_stmt(&format!("a{}", bb)), code_stmt(&format!("b{}", bb))]
    });
    assert_eq!(*calls.borrow(), vec![0, 1, 2, 3]);
    let body = ctx.symbol_table.lookup("M").unwrap().body.clone().unwrap();
    assert_eq!(
        body.stmts[2..],
        [
            code_stmt("a0"),
            code_stmt("b0"),
            code_stmt("a1"),
            code_stmt("b1"),
            code_stmt("a2"),
            code_stmt("b2"),
            code_stmt("a3"),
            code_stmt("b3"),
        ]
    );
}

#[test]
fn a_block_without_statements_adds_nothing() {
    let mut f = simple("M", "f");
    f.mir.basic_blocks = 3;
    let mut ctx = declared(&f);
    ctx.codegen_function(f, |bb: usize| if bb == 1 { Vec::new() } else { vec![code_stmt("x")] });
    let body = ctx.symbol_table.lookup("M").unwrap().body.clone().unwrap();
    assert_eq!(body.stmts.len(), 4);
}

#[test]
fn an_unsupported_function_gets_no_symbol_for_its_locals() {
    let ctx = translated(&simple("M", "bridge::client::run"));
    assert!(ctx.symbol_table.lookup("M::1::var_0").is_none());
    assert!(ctx.symbol_table.lookup("M::1::var_1").is_none());
    assert!(ctx.symbol_table.lookup("M::1::var_2").is_none());
}

#[test]
fn each_kind_of_rule_leads_to_the_stub() {
    let names = [
        "fmt::ArgumentV1::<'a>::as_usize",
        "KEY::__getit",
        "bridge::client::Client::run",
        "bridge::closure::Closure::<'a, A, R>::call",
        "<std::future::from_generator::GenFuture<T> as std::future::Future>::poll",
        "tokio_util::sync::reusable_box::ReusableBoxFuture::<T>::new",
        "tokio::sync::Semaphore::acquire_owned::{closure#0}",
    ];
    for name in names.iter() {
        let ctx = translated(&simple("M", name));
        let body = ctx.symbol_table.lookup("M").unwrap().body.clone().unwrap();
        assert_eq!(body.stmts.len(), 1);
        match &body.stmts[0] {
            Stmt::Unsupported { message, loc: at } => {
                assert_eq!(*message, format!("The function {} is not currently supported by Kani", name));
                assert_eq!(*at, loc("a.rs", 7));
            }
            _ => panic!("the stub was expected"),
        }
    }
}

#[test]
fn an_unsupported_function_with_a_broken_spread_argument_is_still_stubbed() {
    let mut f = tupled();
    f.readable_name = "x__getit".to_string();
    f.fn_ty = FnTy::Closure;
    let ctx = translated(&f);
    let body = ctx.symbol_table.lookup("call").unwrap().body.clone().unwrap();
    assert_eq!(body.stmts.len(), 1);
}

#[test]
fn the_unsupported_message_names_the_item() {
    assert_eq!(unsupported_msg("The function f"), "The function f is not currently supported by Kani");
    assert_eq!(unsupported_msg(""), " is not currently supported by Kani");
}

#[test]
fn the_harness_of_a_translated_function_is_recorded() {
    let mut f = simple("M", "f");
    f.attrs = vec![proof_marker(6)];
    let ctx = translated(&f);
    assert_eq!(
        ctx.proof_harnesses,
        vec![HarnessMetadata {
            pretty_name: "f".to_string(),
            mangled_name: "M".to_string(),
            original_file: "a.rs".to_string(),
            original_line: "7".to_string(),
            unwind_value: None,
        }]
    );
}

#[test]
fn the_harness_of_a_translated_function_has_its_bound() {
    let mut f = simple("M", "f");
    f.attrs = vec![proof_marker(5), unwind(10, 6)];
    let ctx = translated(&f);
    assert_eq!(ctx.proof_harnesses.len(), 1);
    assert_eq!(ctx.proof_harnesses[0].unwind_value, Some(10));
    assert_eq!(ctx.proof_harnesses[0].original_line, "7");
}

#[test]
fn the_attributes_of_a_stubbed_function_are_handled_too() {
    let mut f = simple("M", "x__getit");
    f.attrs = vec![proof_marker(5), proof_marker(6)];
    let ctx = translated(&f);
    assert!(ctx.proof_harnesses.is_empty());
    assert_eq!(ctx.diagnostics.len(), 1);
    assert_eq!(ctx.diagnostics[0].span, loc("a.rs", 5));
    let mut g = simple("M", "x__getit");
    g.attrs = vec![proof_marker(5)];
    let ctx = translated(&g);
    assert_eq!(ctx.proof_harnesses.len(), 1);
}

#[test]
fn a_function_with_two_markers_is_translated_but_is_no_harness() {
    let mut f = simple("M", "f");
    f.attrs = vec![proof_marker(5), proof_marker(6)];
    let ctx = translated(&f);
    assert!(ctx.symbol_table.lookup("M").unwrap().body.is_some());
    assert!(ctx.proof_harnesses.is_empty());
    assert_eq!(
        ctx.diagnostics,
        vec![Diagnostic {
            level: Level::Error,
            span: loc("a.rs", 5),
            message: "Only one Proof Attribute allowed".to_string(),
        }]
    );
}

#[test]
fn the_prelude_declares_the_spread_parameters_and_the_tuple() {
    let ctx = translated(&tupled());
    let table = &ctx.symbol_table;
    assert_eq!(
        table.lookup("call::1::spread_2"),
        Some(&variable("call::1::spread_2", "spread_2", plain("unsigned char"), 21, true))
    );
    assert_eq!(
        table.lookup("call::1::spread_3"),
        Some(&variable("call::1::spread_3", "spread_3", plain("unsigned long int"), 21, true))
    );
    assert_eq!(
        table.lookup("call::1::spread_4"),
        Some(&variable(
            "call::1::spread_4",
            "spread_4",
            plain("struct _3159196586427472662"),
            21,
            true
        ))
    );
    assert!(table.lookup("call::1::spread_5").is_none());
    assert!(table.lookup("call::1::spread_1").is_none());
    let tuple = tuple_type("_8098103865751214180", &["1", "0", "2"]);
    assert_eq!(
        table.lookup("call::1::var_2"),
        Some(&variable("call::1::var_2", "var_2", tuple, 21, true))
    );
}

#[test]
fn the_tuple_is_put_together_by_field_name() {
    let ctx = translated(&tupled());
    let body = ctx.symbol_table.lookup("call").unwrap().body.clone().unwrap();
    let tuple = tuple_type("_8098103865751214180", &["1", "0", "2"]);
    let spread = |i: usize, ty: &str| SymbolRef { name: format!("call::1::spread_{}", i), typ: plain(ty) };
    assert_eq!(
        body.stmts,
        vec![
            Stmt::Decl {
                lhs: SymbolRef { name: "call::1::var_2".to_string(), typ: tuple.clone() },
                value: Some(Expr::Struct {
                    typ: tuple,
                    values: vec![
                        spread(3, "unsigned long int"),
                        spread(2, "unsigned char"),
                        spread(4, "struct _3159196586427472662"),
                    ],
                }),
                loc: loc("a.rs", 21),
            },
            code_stmt("var_2 = 1"),
            code_stmt("goto bb1"),
        ]
    );
}

#[test]
fn under_any_layout_each_field_holds_its_own_spread_parameter() {
    let layouts: [[&str; 3]; 6] = [
        ["0", "1", "2"],
        ["0", "2", "1"],
        ["1", "0", "2"],
        ["1", "2", "0"],
        ["2", "0", "1"],
        ["2", "1", "0"],
    ];
    for layout in layouts.iter() {
        let mut f = tupled();
        f.mir.local_decls[2].ty = tuple_type("T", layout);
        let ctx = translated(&f);
        let body = ctx.symbol_table.lookup("call").unwrap().body.clone().unwrap();
        match &body.stmts[0] {
            Stmt::Decl { value: Some(Expr::Struct { values, .. }), .. } => {
                for (place, field) in layout.iter().enumerate() {
                    let index: usize = field.parse().unwrap();
                    assert_eq!(values[place].name, format!("call::1::spread_{}", index + 2));
                }
            }
            _ => panic!("the declaration of the tuple was expected"),
        }
    }
}

#[test]
fn the_prelude_alone_leaves_the_other_locals_to_the_materialiser() {
    let f = tupled();
    let mut ctx = declared(&f);
    ctx.set_current_fn(f);
    ctx.codegen_function_prelude();
    assert_eq!(ctx.current_fn.as_ref().unwrap().block.len(), 1);
    assert!(ctx.symbol_table.lookup("call::1::var_2").is_some());
    assert!(ctx.symbol_table.lookup("call::1::var_0").is_none());
    ctx.codegen_declare_variables();
    assert_eq!(ctx.current_fn.as_ref().unwrap().block.len(), 1);
    assert!(ctx.symbol_table.lookup("call::1::var_0").is_some());
    assert!(ctx.symbol_table.lookup("call::1::var_1").is_some());
    ctx.reset_current_fn();
    assert!(ctx.current_fn.is_none());
}

#[test]
fn without_a_spread_argument_the_prelude_does_nothing() {
    let f = simple("M", "f");
    let mut ctx = declared(&f);
    ctx.set_current_fn(f);
    ctx.codegen_function_prelude();
    assert!(ctx.current_fn.as_ref().unwrap().block.is_empty());
    assert!(ctx.symbol_table.lookup("M::1::var_0").is_none());
    assert!(!ctx.should_skip_current_fn());
}

#[test]
fn a_tuple_of_no_components_is_an_empty_aggregate() {
    let mut f = tupled();
    f.fn_ty = FnTy::FnPtr { inputs: vec![ParamTy::Other, ParamTy::Tuple(Vec::new())] };
    f.mir.local_decls[2].ty = tuple_type("Unit", &[]);
    let ctx = translated(&f);
    let body = ctx.symbol_table.lookup("call").unwrap().body.clone().unwrap();
    assert_eq!(
        body.stmts[0],
        Stmt::Decl {
            lhs: SymbolRef { name: "call::1::var_2".to_string(), typ: tuple_type("Unit", &[]) },
            value: Some(Expr::Struct { typ: tuple_type("Unit", &[]), values: Vec::new() }),
            loc: loc("a.rs", 21),
        }
    );
    assert!(ctx.symbol_table.lookup("call::1::spread_2").is_none());
}

#[test]
fn a_closure_with_a_spread_argument_cannot_be_translated() {
    let mut f = tupled();
    f.fn_ty = FnTy::Closure;
    assert!(!f.has_consistent_spread());
    assert!(!declared(&f).can_codegen_function(&f));
    f.fn_ty = FnTy::Other;
    assert!(!f.has_consistent_spread());
    assert!(!declared(&f).can_codegen_function(&f));
}

#[test]
fn a_spread_argument_that_is_no_tuple_cannot_be_translated() {
    let mut f = tupled();
    f.fn_ty = FnTy::FnDef { inputs: vec![ParamTy::Other, ParamTy::Other] };
    assert!(!f.has_consistent_spread());
    assert!(!declared(&f).can_codegen_function(&f));
    f.fn_ty = FnTy::FnDef { inputs: Vec::new() };
    assert!(!f.has_consistent_spread());
    let mut g = tupled();
    g.mir.local_decls[2].ty = plain("int");
    assert!(!g.has_consistent_spread());
    let mut h = tupled();
    h.mir.spread_arg = Some(3);
    assert!(!h.has_consistent_spread());
}

#[test]
fn the_layout_must_have_the_fields_of_the_tuple() {
    assert!(tuple_layout_matches(&tuple_type("T", &["1", "0", "2"]), 3));
    assert!(tuple_layout_matches(&tuple_type("T", &[]), 0));
    assert!(tuple_layout_matches(
        &tuple_type("T", &["10", "9", "8", "7", "6", "5", "4", "3", "2", "1", "0"]),
        11
    ));
    assert!(!tuple_layout_matches(&tuple_type("T", &["1", "0"]), 3));
    assert!(!tuple_layout_matches(&tuple_type("T", &["1", "0", "3"]), 3));
    assert!(!tuple_layout_matches(&tuple_type("T", &["1", "0", "0"]), 3));
    assert!(!tuple_layout_matches(&tuple_type("T", &["1", "0", "02"]), 3));
    assert!(!tuple_layout_matches(&tuple_type("T", &["a", "b", "c"]), 3));
    assert!(!tuple_layout_matches(&plain("int"), 0));
    assert!(!tuple_layout_matches(&code("fn()"), 0));
}

#[test]
fn what_cannot_be_translated_is_told_apart() {
    let f = simple("M", "f");
    let mut ctx = GotocCtx::new();
    // Not declared.
    assert!(!ctx.can_codegen_function(&f));
    // Declared as something that is no function.
    ctx.symbol_table.insert(variable("M", "f", plain("int"), 1, false));
    assert!(!ctx.can_codegen_function(&f));
    // An unwind bound that does not fit.
    let mut g = simple("G", "g");
    g.attrs = vec![proof_marker(1), unwind(4294967296, 2)];
    ctx.declare_function(g.clone());
    assert!(!ctx.can_codegen_function(&g));
    g.attrs = vec![proof_marker(1), unwind(4294967295, 2)];
    assert!(ctx.can_codegen_function(&g));
    // While another function is current.
    ctx.set_current_fn(simple("H", "h"));
    assert!(!ctx.can_codegen_function(&g));
    ctx.reset_current_fn();
    assert!(ctx.can_codegen_function(&g));
}

#[test]
fn several_functions_share_one_table() {
    let f = simple("F", "f");
    let g = simple("G", "g__getit");
    let mut h = tupled();
    h.attrs = vec![proof_marker(19)];
    let mut ctx = GotocCtx::new();
    ctx.declare_function(f.clone());
    ctx.declare_function(g.clone());
    ctx.declare_function(h.clone());
    ctx.codegen_function(f, block);
    ctx.codegen_function(g, never);
    ctx.codegen_function(h, block);
    assert!(ctx.symbol_table.lookup("F").unwrap().is_function_definition());
    assert!(ctx.symbol_table.lookup("G").unwrap().is_function_definition());
    assert!(ctx.symbol_table.lookup("call").unwrap().is_function_definition());
    assert!(ctx.symbol_table.lookup("F::1::var_2").is_some());
    assert!(ctx.symbol_table.lookup("G::1::var_2").is_none());
    assert!(ctx.symbol_table.lookup("call::1::spread_3").is_some());
    assert_eq!(ctx.proof_harnesses.len(), 1);
    assert_eq!(ctx.proof_harnesses[0].mangled_name, "call");
    assert_eq!(ctx.proof_harnesses[0].original_line, "20");
    assert!(ctx.diagnostics.is_empty());
    assert!(ctx.current_fn.is_none());
}

#[test]
fn the_fatal_statement_carries_message_and_place() {
    let ctx = GotocCtx::new();
    assert_eq!(
        ctx.codegen_fatal_error("no", &loc("b.rs", 2)),
        Stmt::Unsupported { message: "no".to_string(), loc: loc("b.rs", 2) }
    );
}

#[test]
fn the_statements_gathered_for_a_body_can_be_taken_out() {
    let f = simple("M", "f");
    let mut ctx = declared(&f);
    ctx.set_current_fn(f);
    ctx.current_fn.as_mut().unwrap().push_onto_block(code_stmt("x"));
    ctx.current_fn.as_mut().unwrap().push_onto_block(code_stmt("y"));
    assert_eq!(ctx.current_fn().block, vec![code_stmt("x"), code_stmt("y")]);
    let stmts = ctx.current_fn.as_mut().unwrap().extract_block();
    assert_eq!(stmts, vec![code_stmt("x"), code_stmt("y")]);
    assert!(ctx.current_fn().block.is_empty());
}
