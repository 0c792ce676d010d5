use function_codegen::attributes::{
    extract_integer_argument, kanitool_attr_name, same_text, AttrArgs, AttrKind, Attribute, Lit,
    NestedMeta,
};
use function_codegen::context::GotocCtx;
use function_codegen::function::attributes_applicable;
use function_codegen::goto::{Location, Type};
use function_codegen::metadata::{Diagnostic, HarnessMetadata, Level};
use function_codegen::mir::{FnTy, Instance, Mir};

fn loc(file: &str, line: u64) -> Location {
    Location { file: file.to_string(), line }
}

fn attr(path: &[&str], args: AttrArgs, line: u64) -> Attribute {
    Attribute {
        kind: AttrKind::Normal { path: path.iter().map(|s| s.to_string()).collect(), args },
        span: loc("a.rs", line),
    }
}

fn proof_marker(line: u64) -> Attribute {
    attr(&["kanitool", "proof"], AttrArgs::Word, line)
}

fn unwind(value: u128, line: u64) -> Attribute {
    attr(
        &["kanitool", "unwind"],
        AttrArgs::List(vec![NestedMeta::Literal(Lit::Int(value))]),
        line,
    )
}

fn instance(attrs: Vec<Attribute>) -> Instance {
    Instance {
        name: "M".to_string(),
        readable_name: "f".to_string(),
        fn_ty: FnTy::FnDef { inputs: Vec::new() },
        fn_typ: Type::Code { signature: "void f(void)".to_string() },
        mir: Mir {
            local_decls: Vec::new(),
            arg_count: 0,
            spread_arg: None,
            basic_blocks: 0,
            span: loc("a.rs", 7),
        },
        attrs,
    }
}

fn handled(attrs: Vec<Attribute>) -> GotocCtx {
    let mut ctx = GotocCtx::new();
    assert!(attributes_applicable(&attrs));
    ctx.set_current_fn(instance(attrs));
    ctx.handle_kanitool_attributes();
    ctx
}

fn harness(unwind_value: Option<u32>) -> HarnessMetadata {
    HarnessMetadata {
        pretty_name: "f".to_string(),
        mangled_name: "M".to_string(),
        original_file: "a.rs".to_string(),
        original_line: "7".to_string(),
        unwind_value,
    }
}

fn error(line: u64, message: &str) -> Diagnostic {
    Diagnostic { level: Level::Error, span: loc("a.rs", line), message: message.to_string() }
}

#[test]
fn same_text_compares_texts() {
    assert!(same_text("", ""));
    assert!(same_text("proof", "proof"));
    assert!(!same_text("proof", "proo"));
    assert!(!same_text("proof", "Proof"));
}

#[test]
fn the_name_is_what_follows_the_namespace() {
    assert_eq!(kanitool_attr_name(&proof_marker(1)), Some("proof".to_string()));
    assert_eq!(kanitool_attr_name(&unwind(3, 1)), Some("unwind".to_string()));
    assert_eq!(kanitool_attr_name(&attr(&["kanitool"], AttrArgs::Word, 1)), Some(String::new()));
}

#[test]
fn further_segments_are_joined_without_a_separator() {
    assert_eq!(
        kanitool_attr_name(&attr(&["kanitool", "a", "b", "c"], AttrArgs::Word, 1)),
        Some("abc".to_string())
    );
}

#[test]
fn other_attributes_have_no_name_in_the_namespace() {
    assert_eq!(kanitool_attr_name(&attr(&["inline"], AttrArgs::Word, 1)), None);
    assert_eq!(kanitool_attr_name(&attr(&["kani", "proof"], AttrArgs::Word, 1)), None);
    assert_eq!(kanitool_attr_name(&attr(&["rustfmt", "kanitool"], AttrArgs::Word, 1)), None);
    assert_eq!(kanitool_attr_name(&attr(&[], AttrArgs::Word, 1)), None);
    let doc = Attribute { kind: AttrKind::DocComment, span: loc("a.rs", 1) };
    assert_eq!(kanitool_attr_name(&doc), None);
}

#[test]
fn one_integer_in_a_list_is_the_integer_argument() {
    assert_eq!(extract_integer_argument(&unwind(10, 1)), Some(10));
    assert_eq!(extract_integer_argument(&unwind(0, 1)), Some(0));
    assert_eq!(extract_integer_argument(&unwind(u128::MAX, 1)), Some(u128::MAX));
}

#[test]
fn anything_else_is_no_integer_argument() {
    let path = ["kanitool", "unwind"];
    assert_eq!(extract_integer_argument(&attr(&path, AttrArgs::Word, 1)), None);
    assert_eq!(extract_integer_argument(&attr(&path, AttrArgs::List(Vec::new()), 1)), None);
    assert_eq!(
        extract_integer_argument(&attr(
            &path,
            AttrArgs::List(vec![
                NestedMeta::Literal(Lit::Int(1)),
                NestedMeta::Literal(Lit::Int(2))
            ]),
            1
        )),
        None
    );
    assert_eq!(
        extract_integer_argument(&attr(
            &path,
            AttrArgs::List(vec![NestedMeta::Literal(Lit::Str("10".to_string()))]),
            1
        )),
        None
    );
    assert_eq!(
        extract_integer_argument(&attr(
            &path,
            AttrArgs::List(vec![NestedMeta::Literal(Lit::Bool(true))]),
            1
        )),
        None
    );
    assert_eq!(
        extract_integer_argument(&attr(&path, AttrArgs::List(vec![NestedMeta::MetaItem]), 1)),
        None
    );
    assert_eq!(extract_integer_argument(&attr(&path, AttrArgs::NameValue(Lit::Int(10)), 1)), None);
    let doc = Attribute { kind: AttrKind::DocComment, span: loc("a.rs", 1) };
    assert_eq!(extract_integer_argument(&doc), None);
}

#[test]
fn the_harness_record_is_made_from_the_current_function() {
    let mut ctx = GotocCtx::new();
    ctx.set_current_fn(instance(vec![proof_marker(6)]));
    let h = ctx.handle_kanitool_proof();
    assert_eq!(h, harness(None));
    assert!(ctx.proof_harnesses.is_empty());
    assert!(ctx.diagnostics.is_empty());
    assert!(ctx.current_fn.is_some());
}

#[test]
fn one_proof_marker_records_one_harness() {
    let ctx = handled(vec![proof_marker(6)]);
    assert_eq!(ctx.proof_harnesses, vec![harness(None)]);
    assert!(ctx.diagnostics.is_empty());
}

#[test]
fn a_proof_marker_with_an_unwind_modifier_records_the_bound() {
    let ctx = handled(vec![proof_marker(5), unwind(10, 6)]);
    assert_eq!(ctx.proof_harnesses, vec![harness(Some(10))]);
    assert!(ctx.diagnostics.is_empty());
}

#[test]
fn the_modifier_may_stand_before_the_marker() {
    let ctx = handled(vec![unwind(3, 5), proof_marker(6)]);
    assert_eq!(ctx.proof_harnesses, vec![harness(Some(3))]);
    assert!(ctx.diagnostics.is_empty());
}

#[test]
fn two_proof_markers_record_nothing_and_report_the_first() {
    let ctx = handled(vec![proof_marker(5), proof_marker(6)]);
    assert!(ctx.proof_harnesses.is_empty());
    assert_eq!(ctx.diagnostics, vec![error(5, "Only one Proof Attribute allowed")]);
}

#[test]
fn two_proof_markers_with_a_modifier_record_nothing() {
    let ctx = handled(vec![unwind(1, 4), proof_marker(5), proof_marker(6), proof_marker(7)]);
    assert!(ctx.proof_harnesses.is_empty());
    assert_eq!(ctx.diagnostics, vec![error(5, "Only one Proof Attribute allowed")]);
}

#[test]
fn a_second_unwind_modifier_is_reported_and_the_first_bound_stays() {
    let ctx = handled(vec![proof_marker(4), unwind(2, 5), unwind(9, 6)]);
    assert_eq!(ctx.proof_harnesses, vec![harness(Some(2))]);
    assert_eq!(ctx.diagnostics, vec![error(6, "Use only one Unwind Annotation per Harness")]);
}

#[test]
fn every_further_unwind_modifier_is_reported() {
    let ctx = handled(vec![unwind(2, 3), proof_marker(4), unwind(9, 5), unwind(2, 6)]);
    assert_eq!(ctx.proof_harnesses, vec![harness(Some(2))]);
    assert_eq!(
        ctx.diagnostics,
        vec![
            error(5, "Use only one Unwind Annotation per Harness"),
            error(6, "Use only one Unwind Annotation per Harness")
        ]
    );
}

#[test]
fn a_modifier_without_a_marker_is_reported_at_the_first_modifier() {
    let ctx = handled(vec![unwind(2, 5), unwind(3, 6)]);
    assert!(ctx.proof_harnesses.is_empty());
    assert_eq!(ctx.diagnostics, vec![error(5, "Please use '#kani[proof]' above the annotation")]);
}

#[test]
fn no_attribute_of_the_namespace_does_nothing() {
    let ctx = handled(vec![attr(&["inline"], AttrArgs::Word, 5)]);
    assert!(ctx.proof_harnesses.is_empty());
    assert!(ctx.diagnostics.is_empty());
    let ctx = handled(Vec::new());
    assert!(ctx.proof_harnesses.is_empty());
    assert!(ctx.diagnostics.is_empty());
}

#[test]
fn an_unknown_name_in_the_namespace_is_passed_over() {
    let ctx = handled(vec![attr(&["kanitool", "stub"], AttrArgs::Word, 5)]);
    assert!(ctx.proof_harnesses.is_empty());
    assert!(ctx.diagnostics.is_empty());
    let ctx = handled(vec![attr(&["kanitool", "stub"], AttrArgs::Word, 5), proof_marker(6)]);
    assert_eq!(ctx.proof_harnesses, vec![harness(None)]);
    assert!(ctx.diagnostics.is_empty());
}

#[test]
fn an_unwind_modifier_without_an_integer_is_reported_and_sets_no_bound() {
    let bad = attr(&["kanitool", "unwind"], AttrArgs::Word, 6);
    let ctx = handled(vec![proof_marker(5), bad]);
    assert_eq!(ctx.proof_harnesses, vec![harness(None)]);
    assert_eq!(ctx.diagnostics, vec![error(6, "Exactly one Unwind Argument as Integer accepted")]);
}

#[test]
fn a_good_modifier_after_a_bad_one_sets_the_bound() {
    let bad = attr(
        &["kanitool", "unwind"],
        AttrArgs::List(vec![NestedMeta::Literal(Lit::Int(1)), NestedMeta::Literal(Lit::Int(2))]),
        6,
    );
    let ctx = handled(vec![proof_marker(5), bad, unwind(8, 7)]);
    assert_eq!(ctx.proof_harnesses, vec![harness(Some(8))]);
    assert_eq!(ctx.diagnostics, vec![error(6, "Exactly one Unwind Argument as Integer accepted")]);
}

#[test]
fn the_largest_bound_of_32_bits_is_taken() {
    let ctx = handled(vec![proof_marker(5), unwind(4294967295, 6)]);
    assert_eq!(ctx.proof_harnesses, vec![harness(Some(u32::MAX))]);
    assert!(ctx.diagnostics.is_empty());
}

#[test]
fn a_bound_beyond_32_bits_cannot_be_applied() {
    assert!(!attributes_applicable(&vec![proof_marker(5), unwind(4294967296, 6)]));
    assert!(!attributes_applicable(&vec![unwind(u128::MAX, 4), proof_marker(5)]));
    // Behind a bound that was set, a modifier is only reported, whatever it holds.
    assert!(attributes_applicable(&vec![proof_marker(5), unwind(1, 6), unwind(4294967296, 7)]));
    // Without exactly one proof marker no modifier is applied at all.
    assert!(attributes_applicable(&vec![unwind(4294967296, 6)]));
    assert!(attributes_applicable(&vec![proof_marker(4), proof_marker(5), unwind(4294967296, 6)]));
}

#[test]
fn one_modifier_is_applied_to_a_harness_at_a_time() {
    let mut ctx = GotocCtx::new();
    let mut h = harness(None);
    ctx.handle_kanitool_unwind(&unwind(5, 3), &mut h);
    assert_eq!(h, harness(Some(5)));
    assert!(ctx.diagnostics.is_empty());
    ctx.handle_kanitool_unwind(&unwind(6, 4), &mut h);
    assert_eq!(h, harness(Some(5)));
    assert_eq!(ctx.diagnostics, vec![error(4, "Use only one Unwind Annotation per Harness")]);
}

#[test]
fn harnesses_are_recorded_in_the_order_in_which_they_are_found() {
    let mut ctx = GotocCtx::new();
    let mut first = instance(vec![proof_marker(1)]);
    first.name = "M1".to_string();
    let mut second = instance(vec![proof_marker(2), unwind(4, 3)]);
    second.name = "M2".to_string();
    ctx.set_current_fn(first);
    ctx.handle_kanitool_attributes();
    ctx.reset_current_fn();
    ctx.set_current_fn(second);
    ctx.handle_kanitool_attributes();
    ctx.reset_current_fn();
    assert_eq!(ctx.proof_harnesses.len(), 2);
    assert_eq!(ctx.proof_harnesses[0].mangled_name, "M1");
    assert_eq!(ctx.proof_harnesses[0].unwind_value, None);
    assert_eq!(ctx.proof_harnesses[1].mangled_name, "M2");
    assert_eq!(ctx.proof_harnesses[1].unwind_value, Some(4));
}
