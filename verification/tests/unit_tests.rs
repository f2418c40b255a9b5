use rust_parser_helper::classify::classify_source;
use rust_parser_helper::model::FieldsDecl;
use rust_parser_helper::model::FnDecl;
use rust_parser_helper::model::ParamDecl;
use rust_parser_helper::model::PosFieldDecl;
use rust_parser_helper::model::StructDecl;
use rust_parser_helper::model::VisibilityKind;
use rust_parser_helper::text::field_name_for_index;
use rust_parser_helper::visitor::RustVisitor;

#[test]
fn classifier_assigns_each_label() {
    assert_eq!(classify_source("#[ink::contract]\nmod m {}"), "ink");
    assert_eq!(classify_source("use ink_lang as ink;"), "ink");
    assert_eq!(classify_source("use cosmwasm_std::Deps;"), "cosmwasm");
    assert_eq!(classify_source("struct InstantiateMsg {}"), "cosmwasm");
    assert_eq!(classify_source("use anchor_lang::prelude::*;"), "anchor");
    assert_eq!(classify_source("#[program]\nmod p {}"), "anchor");
    assert_eq!(classify_source("use near_sdk::near_bindgen;"), "near");
    assert_eq!(classify_source("#[near_bindgen]\nstruct C {}"), "near");
    assert_eq!(classify_source("fn main() {}"), "generic");
    assert_eq!(classify_source(""), "generic");
}

#[test]
fn classifier_first_match_wins() {
    assert_eq!(classify_source("use ink_lang; use near_sdk;"), "ink");
    assert_eq!(classify_source("use cosmwasm_std; use anchor_lang;"), "cosmwasm");
    assert_eq!(classify_source("use anchor_lang; use near_sdk;"), "anchor");
}

#[test]
fn classifier_is_idempotent() {
    let text = "use near_sdk::near_bindgen;";
    assert_eq!(classify_source(text), classify_source(text));

    let mut visitor = RustVisitor::new(text);
    assert_eq!(visitor.result.contract_type, "near");
    visitor.detect_contract_type(text);
    assert_eq!(visitor.result.contract_type, "near");
}

#[test]
fn new_visitor_starts_empty_with_label() {
    let visitor = RustVisitor::new("use ink_lang as ink;");
    assert_eq!(visitor.result.contract_type, "ink");
    assert!(visitor.result.functions.is_empty());
    assert!(visitor.result.structs.is_empty());
    assert!(visitor.result.traits.is_empty());
    assert!(visitor.result.impl_blocks.is_empty());
    assert!(visitor.result.uses.is_empty());
    assert!(visitor.result.errors.is_empty());
}

#[test]
fn visibility_mapping_has_three_values() {
    assert_eq!(RustVisitor::visibility_to_string(&VisibilityKind::Public), "pub");
    assert_eq!(
        RustVisitor::visibility_to_string(&VisibilityKind::Restricted),
        "pub(restricted)"
    );
    assert_eq!(RustVisitor::visibility_to_string(&VisibilityKind::Inherited), "private");
}

#[test]
fn field_names_render_decimal_indices() {
    assert_eq!(field_name_for_index(0), "field_0");
    assert_eq!(field_name_for_index(7), "field_7");
    assert_eq!(field_name_for_index(10), "field_10");
    assert_eq!(field_name_for_index(205), "field_205");
}

#[test]
fn visit_item_fn_skips_patterned_parameters() {
    let mut visitor = RustVisitor::new("");
    let decl = FnDecl {
        name: "f".to_string(),
        visibility: VisibilityKind::Inherited,
        params: vec![
            ParamDecl::Patterned,
            ParamDecl::Simple {
                name: "c".to_string(),
                param_type: "bool".to_string(),
                is_mutable: true,
            },
        ],
        return_type: None,
        attributes: Vec::new(),
        is_async: false,
        is_unsafe: false,
    };
    visitor.visit_item_fn(&decl);
    assert_eq!(visitor.result.functions.len(), 1);
    let f = &visitor.result.functions[0];
    assert_eq!(f.parameters.len(), 1);
    assert_eq!(f.parameters[0].name, "c");
    assert!(f.parameters[0].is_mutable);
}

#[test]
fn visit_item_struct_synthesizes_positional_names() {
    let mut visitor = RustVisitor::new("");
    let decl = StructDecl {
        name: "P".to_string(),
        visibility: VisibilityKind::Public,
        fields: FieldsDecl::Positional(vec![
            PosFieldDecl {
                field_type: "u32".to_string(),
                visibility: VisibilityKind::Inherited,
            },
            PosFieldDecl {
                field_type: "bool".to_string(),
                visibility: VisibilityKind::Public,
            },
        ]),
        attributes: Vec::new(),
    };
    visitor.visit_item_struct(&decl);
    assert_eq!(visitor.result.structs.len(), 1);
    let s = &visitor.result.structs[0];
    assert_eq!(s.fields[0].name, "field_0");
    assert_eq!(s.fields[0].visibility, "private");
    assert_eq!(s.fields[1].name, "field_1");
    assert_eq!(s.fields[1].visibility, "pub");
}

#[test]
fn sentinel_line_numbers_are_one() {
    let visitor = RustVisitor::new("");
    assert_eq!(visitor.get_line_numbers(), (1, 1));
}
