use rust_parser_helper::parse::parse_rust_source;

#[test]
fn function_list_counts_and_flags() {
    let source = "fn a(x: u32, y: bool) {}\npub async fn b() {}\npub(crate) unsafe fn c(mut z: bool) {}\n";
    let r = parse_rust_source(source);
    assert!(r.errors.is_empty());
    assert_eq!(r.functions.len(), 3);

    assert_eq!(r.functions[0].name, "a");
    assert_eq!(r.functions[0].visibility, "private");
    assert!(!r.functions[0].is_async);
    assert!(!r.functions[0].is_unsafe);
    assert_eq!(r.functions[0].parameters.len(), 2);
    assert_eq!(r.functions[0].parameters[0].name, "x");
    assert_eq!(r.functions[0].parameters[0].param_type, "u32");
    assert!(!r.functions[0].parameters[0].is_mutable);
    assert_eq!(r.functions[0].parameters[1].name, "y");
    assert_eq!(r.functions[0].parameters[1].param_type, "bool");
    assert_eq!(r.functions[0].return_type, None);

    assert_eq!(r.functions[1].name, "b");
    assert_eq!(r.functions[1].visibility, "pub");
    assert!(r.functions[1].is_async);
    assert!(!r.functions[1].is_unsafe);

    assert_eq!(r.functions[2].name, "c");
    assert_eq!(r.functions[2].visibility, "pub(restricted)");
    assert!(r.functions[2].is_unsafe);
    assert_eq!(r.functions[2].parameters.len(), 1);
    assert!(r.functions[2].parameters[0].is_mutable);
}

#[test]
fn destructured_parameters_are_skipped() {
    let source = "fn f((a, b): (u32, u32), c: bool) {}\n";
    let r = parse_rust_source(source);
    assert_eq!(r.functions.len(), 1);
    assert_eq!(r.functions[0].parameters.len(), 1);
    assert_eq!(r.functions[0].parameters[0].name, "c");
}

#[test]
fn receiver_is_not_a_parameter() {
    let source =
        "fn get_balance(&self, account: AccountId) -> Balance { self.balances.get(&account).unwrap() }\n";
    let r = parse_rust_source(source);
    assert!(r.errors.is_empty());
    assert_eq!(r.functions.len(), 1);
    let f = &r.functions[0];
    assert_eq!(f.name, "get_balance");
    assert_eq!(f.visibility, "private");
    assert!(!f.is_async);
    assert!(!f.is_unsafe);
    assert_eq!(f.parameters.len(), 1);
    assert_eq!(f.parameters[0].name, "account");
    assert_eq!(f.parameters[0].param_type, "AccountId");
    assert_eq!(f.return_type.as_deref(), Some("Balance"));
    assert_eq!(f.line_start, 1);
    assert_eq!(f.line_end, 1);
}

#[test]
fn positional_fields_get_synthesized_names() {
    let source = "struct P(u32, bool, i64);\n";
    let r = parse_rust_source(source);
    assert_eq!(r.structs.len(), 1);
    let s = &r.structs[0];
    assert_eq!(s.name, "P");
    assert_eq!(s.fields.len(), 3);
    assert_eq!(s.fields[0].name, "field_0");
    assert_eq!(s.fields[0].field_type, "u32");
    assert_eq!(s.fields[1].name, "field_1");
    assert_eq!(s.fields[1].field_type, "bool");
    assert_eq!(s.fields[2].name, "field_2");
    assert_eq!(s.fields[2].field_type, "i64");
}

#[test]
fn positional_field_names_past_ten() {
    let source = "struct T(u8, u8, u8, u8, u8, u8, u8, u8, u8, u8, u8, u8);\n";
    let r = parse_rust_source(source);
    assert_eq!(r.structs.len(), 1);
    let s = &r.structs[0];
    assert_eq!(s.fields.len(), 12);
    assert_eq!(s.fields[9].name, "field_9");
    assert_eq!(s.fields[10].name, "field_10");
    assert_eq!(s.fields[11].name, "field_11");
}

#[test]
fn named_fields_keep_names_and_visibility() {
    let source = "pub struct S { pub a: u32, b: bool }\n";
    let r = parse_rust_source(source);
    assert_eq!(r.structs.len(), 1);
    let s = &r.structs[0];
    assert_eq!(s.visibility, "pub");
    assert_eq!(s.fields.len(), 2);
    assert_eq!(s.fields[0].name, "a");
    assert_eq!(s.fields[0].visibility, "pub");
    assert_eq!(s.fields[1].name, "b");
    assert_eq!(s.fields[1].visibility, "private");
}

#[test]
fn unit_struct_has_no_fields() {
    let r = parse_rust_source("struct U;\n");
    assert_eq!(r.structs.len(), 1);
    assert!(r.structs[0].fields.is_empty());
}

#[test]
fn trait_collects_only_method_names() {
    let source = "pub trait T { fn m1(&self); const K: u32; fn m2(); type A; }\n";
    let r = parse_rust_source(source);
    assert_eq!(r.traits.len(), 1);
    let t = &r.traits[0];
    assert_eq!(t.name, "T");
    assert_eq!(t.visibility, "pub");
    assert_eq!(t.methods, vec!["m1".to_string(), "m2".to_string()]);
}

#[test]
fn inherent_impl_has_no_trait_name() {
    let source = "impl Foo { fn m(&self) {} const K: u32 = 1; }\n";
    let r = parse_rust_source(source);
    assert_eq!(r.impl_blocks.len(), 1);
    let i = &r.impl_blocks[0];
    assert_eq!(i.target_type, "Foo");
    assert_eq!(i.trait_name, None);
    assert_eq!(i.methods, vec!["m".to_string()]);
}

#[test]
fn trait_impl_carries_trait_name() {
    let source = "impl Bar for Foo { fn m() {} }\n";
    let r = parse_rust_source(source);
    assert_eq!(r.impl_blocks.len(), 1);
    let i = &r.impl_blocks[0];
    assert_eq!(i.target_type, "Foo");
    assert_eq!(i.trait_name.as_deref(), Some("Bar"));
    assert_eq!(i.methods, vec!["m".to_string()]);
}

#[test]
fn use_statements_are_rendered_in_order() {
    let source = "use std::fmt;\nuse a::b::c;\n";
    let r = parse_rust_source(source);
    assert_eq!(r.uses.len(), 2);
    assert_eq!(r.uses[0], "use std :: fmt ;");
    assert_eq!(r.uses[1], "use a :: b :: c ;");
}

#[test]
fn attributes_are_rendered_as_text() {
    let source = "#[derive(Debug)]\nstruct S {}\n";
    let r = parse_rust_source(source);
    assert_eq!(r.structs.len(), 1);
    assert_eq!(r.structs[0].attributes.len(), 1);
    assert_eq!(r.structs[0].attributes[0], "# [derive (Debug)]");
}

#[test]
fn module_contents_are_visited() {
    let source = "mod m { use x::y; fn inner() {} struct S(u8); }\n";
    let r = parse_rust_source(source);
    assert_eq!(r.functions.len(), 1);
    assert_eq!(r.functions[0].name, "inner");
    assert_eq!(r.structs.len(), 1);
    assert_eq!(r.structs[0].name, "S");
    assert_eq!(r.uses.len(), 1);
}

#[test]
fn items_nested_in_function_bodies_are_visited_in_preorder() {
    let source = "fn outer() { fn inner() {} }\n";
    let r = parse_rust_source(source);
    assert_eq!(r.functions.len(), 2);
    assert_eq!(r.functions[0].name, "outer");
    assert_eq!(r.functions[1].name, "inner");
}

#[test]
fn items_nested_in_impl_method_bodies_are_visited() {
    let source = "impl A { fn m() { struct Hidden; } }\n";
    let r = parse_rust_source(source);
    assert_eq!(r.impl_blocks.len(), 1);
    assert_eq!(r.structs.len(), 1);
    assert_eq!(r.structs[0].name, "Hidden");
}

#[test]
fn parse_failure_yields_error_report() {
    let source = "fn {";
    let r = parse_rust_source(source);
    assert!(r.functions.is_empty());
    assert!(r.structs.is_empty());
    assert!(r.traits.is_empty());
    assert!(r.impl_blocks.is_empty());
    assert!(r.uses.is_empty());
    assert!(r.unsafe_blocks.is_empty());
    assert!(r.attributes.is_empty());
    assert_eq!(r.contract_type, "unknown");
    assert_eq!(r.errors.len(), 1);
    assert!(r.errors[0].starts_with("Parse error: "));
    assert!(r.errors[0].contains("error"));
}

#[test]
fn empty_input_yields_empty_generic_report() {
    let r = parse_rust_source("");
    assert!(r.functions.is_empty());
    assert!(r.structs.is_empty());
    assert!(r.traits.is_empty());
    assert!(r.impl_blocks.is_empty());
    assert!(r.uses.is_empty());
    assert!(r.errors.is_empty());
    assert_eq!(r.contract_type, "generic");
}

#[test]
fn marker_in_valid_code_sets_label() {
    let source = "use ink_lang as ink;\nfn f() {}\n";
    let r = parse_rust_source(source);
    assert!(r.errors.is_empty());
    assert_eq!(r.contract_type, "ink");
}

#[test]
fn parse_failure_forces_unknown_label_over_marker() {
    let source = "use ink_lang as ink;\nfn {";
    let r = parse_rust_source(source);
    assert_eq!(r.errors.len(), 1);
    assert_eq!(r.contract_type, "unknown");
}

#[test]
fn reserved_lists_stay_empty() {
    let source = "fn f() { unsafe { } }\n";
    let r = parse_rust_source(source);
    assert!(r.errors.is_empty());
    assert!(r.unsafe_blocks.is_empty());
    assert!(r.attributes.is_empty());
}
