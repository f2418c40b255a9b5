//! The grammar-parser boundary: `syn` turns raw text into a syntax tree (or
//! a diagnostic), and a small trusted layer renders that tree into the
//! library's own node shape. Everything after that boundary is verified: the
//! walk, the normalization and the report assembly.

use vstd::prelude::*;
use quote::ToTokens;
use crate::classify::classify_label;
use crate::model::nodes_view;
use crate::model::FieldsDecl;
use crate::model::FnDecl;
use crate::model::ImplDecl;
use crate::model::ItemKind;
use crate::model::ItemNode;
use crate::model::ItemNodeV;
use crate::model::MemberDecl;
use crate::model::NamedFieldDecl;
use crate::model::ParamDecl;
use crate::model::PosFieldDecl;
use crate::model::StructDecl;
use crate::model::TraitDecl;
use crate::model::VisibilityKind;
use crate::records::ParseResult;
use crate::records::ReportV;
use crate::visitor::empty_report_with;
use crate::visitor::report_add;
use crate::visitor::walk_items_v;
use crate::visitor::RustVisitor;

verus! {

#[verifier::external_type_specification]
#[verifier::external_body]
pub struct ExItem(syn::Item);

#[verifier::external_type_specification]
#[verifier::external_body]
pub struct ExItemFn(syn::ItemFn);

#[verifier::external_type_specification]
#[verifier::external_body]
pub struct ExItemStruct(syn::ItemStruct);

#[verifier::external_type_specification]
#[verifier::external_body]
pub struct ExItemTrait(syn::ItemTrait);

#[verifier::external_type_specification]
#[verifier::external_body]
pub struct ExItemImpl(syn::ItemImpl);

#[verifier::external_type_specification]
#[verifier::external_body]
pub struct ExItemUse(syn::ItemUse);

#[verifier::external_type_specification]
#[verifier::external_body]
pub struct ExItemMod(syn::ItemMod);

#[verifier::external_type_specification]
#[verifier::external_body]
pub struct ExSignature(syn::Signature);

#[verifier::external_type_specification]
#[verifier::external_body]
pub struct ExAttribute(syn::Attribute);

#[verifier::external_type_specification]
#[verifier::external_body]
pub struct ExVisibility(syn::Visibility);

#[verifier::external_type_specification]
#[verifier::external_body]
pub struct ExFields(syn::Fields);

#[verifier::external_type_specification]
#[verifier::external_body]
pub struct ExFieldsNamed(syn::FieldsNamed);

#[verifier::external_type_specification]
#[verifier::external_body]
pub struct ExFieldsUnnamed(syn::FieldsUnnamed);

#[verifier::external_type_specification]
#[verifier::external_body]
pub struct ExBlock(syn::Block);

/// What parsing a text yields: the tree, as the library's node values, or
/// the parser's diagnostic. `syn::parse_file` computes it from the text
/// alone, so it is named here rather than restated.
pub uninterp spec fn parse_of(s: Seq<char>) -> Result<Seq<ItemNodeV>, Seq<char>>;

/// Relies on syn's `Visibility`: the three modifier shapes it
/// distinguishes map one-to-one onto the library's.
#[verifier::external_body]
fn conv_vis(vis: &syn::Visibility) -> VisibilityKind {
    match vis {
        syn::Visibility::Public(_) => VisibilityKind::Public,
        syn::Visibility::Restricted(_) => VisibilityKind::Restricted,
        syn::Visibility::Inherited => VisibilityKind::Inherited,
    }
}

/// Relies on quote's `ToTokens` and proc-macro2's token-stream rendering:
/// each attribute is rendered back to its literal source-like text.
#[verifier::external_body]
fn conv_attrs(attrs: &[syn::Attribute]) -> Vec<String> {
    let mut out: Vec<String> = Vec::new();
    for a in attrs.iter() {
        out.push(a.to_token_stream().to_string());
    }
    out
}

/// Relies on syn's `FnArg` and `Pat`: receivers carry no binding, simple
/// identifier bindings carry name, type text and mutability, destructuring
/// patterns are handed over as such.
#[verifier::external_body]
fn conv_params(sig: &syn::Signature) -> Vec<ParamDecl> {
    let mut out: Vec<ParamDecl> = Vec::new();
    for arg in sig.inputs.iter() {
        if let syn::FnArg::Typed(pt) = arg {
            if let syn::Pat::Ident(pi) = pt.pat.as_ref() {
                out.push(ParamDecl::Simple {
                    name: pi.ident.to_string(),
                    param_type: pt.ty.to_token_stream().to_string(),
                    is_mutable: pi.mutability.is_some(),
                });
            } else {
                out.push(ParamDecl::Patterned);
            }
        }
    }
    out
}

/// Relies on syn's `ReturnType`: absent when the declaration writes none,
/// otherwise the type's literal text.
#[verifier::external_body]
fn conv_ret(sig: &syn::Signature) -> Option<String> {
    match &sig.output {
        syn::ReturnType::Default => None,
        syn::ReturnType::Type(_, ty) => Some(ty.to_token_stream().to_string()),
    }
}

/// Relies on syn's `Stmt`: the items declared among a block's statements,
/// in order.
#[verifier::external_body]
fn conv_block_items(b: &syn::Block) -> Vec<ItemNode> {
    let mut out: Vec<ItemNode> = Vec::new();
    for st in b.stmts.iter() {
        if let syn::Stmt::Item(it) = st {
            out.push(conv_item(it));
        }
    }
    out
}

/// Relies on syn's `ItemFn`: name, visibility, signature parts and
/// attributes are handed over; the items declared in the body become
/// children.
#[verifier::external_body]
fn conv_fn(f: &syn::ItemFn) -> ItemNode {
    ItemNode {
        kind: ItemKind::Function(FnDecl {
            name: f.sig.ident.to_string(),
            visibility: conv_vis(&f.vis),
            params: conv_params(&f.sig),
            return_type: conv_ret(&f.sig),
            attributes: conv_attrs(&f.attrs),
            is_async: f.sig.asyncness.is_some(),
            is_unsafe: f.sig.unsafety.is_some(),
        }),
        children: conv_block_items(&f.block),
    }
}

/// Relies on syn's `FieldsNamed`: declared name, type text and visibility
/// of each named field, in order.
#[verifier::external_body]
fn conv_named_fields(fs: &syn::FieldsNamed) -> Vec<NamedFieldDecl> {
    let mut out: Vec<NamedFieldDecl> = Vec::new();
    for f in fs.named.iter() {
        if let Some(id) = &f.ident {
            out.push(NamedFieldDecl {
                name: id.to_string(),
                field_type: f.ty.to_token_stream().to_string(),
                visibility: conv_vis(&f.vis),
            });
        }
    }
    out
}

/// Relies on syn's `FieldsUnnamed`: type text and visibility of each
/// positional field, in order.
#[verifier::external_body]
fn conv_pos_fields(fs: &syn::FieldsUnnamed) -> Vec<PosFieldDecl> {
    let mut out: Vec<PosFieldDecl> = Vec::new();
    for f in fs.unnamed.iter() {
        out.push(PosFieldDecl {
            field_type: f.ty.to_token_stream().to_string(),
            visibility: conv_vis(&f.vis),
        });
    }
    out
}

/// Relies on syn's `Fields`: the three field-list shapes map one-to-one
/// onto the library's.
#[verifier::external_body]
fn conv_fields(fields: &syn::Fields) -> FieldsDecl {
    match fields {
        syn::Fields::Named(fs) => FieldsDecl::Named(conv_named_fields(fs)),
        syn::Fields::Unnamed(fs) => FieldsDecl::Positional(conv_pos_fields(fs)),
        syn::Fields::Unit => FieldsDecl::Unit,
    }
}

/// Relies on syn's `ItemStruct`: name, visibility, fields and attributes
/// are handed over.
#[verifier::external_body]
fn conv_struct(s: &syn::ItemStruct) -> ItemNode {
    ItemNode {
        kind: ItemKind::Structure(StructDecl {
            name: s.ident.to_string(),
            visibility: conv_vis(&s.vis),
            fields: conv_fields(&s.fields),
            attributes: conv_attrs(&s.attrs),
        }),
        children: Vec::new(),
    }
}

/// Relies on syn's `TraitItem`: function-shaped members by name, every
/// other member kind as such; items declared in default bodies become
/// children, in member order.
#[verifier::external_body]
fn conv_trait_items(t: &syn::ItemTrait) -> (Vec<MemberDecl>, Vec<ItemNode>) {
    let mut members: Vec<MemberDecl> = Vec::new();
    let mut children: Vec<ItemNode> = Vec::new();
    for it in t.items.iter() {
        if let syn::TraitItem::Fn(m) = it {
            members.push(MemberDecl::Method(m.sig.ident.to_string()));
            if let Some(b) = &m.default {
                children.append(&mut conv_block_items(b));
            }
        } else {
            members.push(MemberDecl::OtherMember);
        }
    }
    (members, children)
}

/// Relies on syn's `ItemTrait`: name, visibility, attributes and members
/// are handed over.
#[verifier::external_body]
fn conv_trait(t: &syn::ItemTrait) -> ItemNode {
    let (members, children) = conv_trait_items(t);
    ItemNode {
        kind: ItemKind::Interface(TraitDecl {
            name: t.ident.to_string(),
            visibility: conv_vis(&t.vis),
            members,
            attributes: conv_attrs(&t.attrs),
        }),
        children,
    }
}

/// Relies on syn's `ImplItem`: function-shaped members by name, every
/// other member kind as such; items declared in method bodies become
/// children, in member order.
#[verifier::external_body]
fn conv_impl_items(i: &syn::ItemImpl) -> (Vec<MemberDecl>, Vec<ItemNode>) {
    let mut members: Vec<MemberDecl> = Vec::new();
    let mut children: Vec<ItemNode> = Vec::new();
    for it in i.items.iter() {
        if let syn::ImplItem::Fn(m) = it {
            members.push(MemberDecl::Method(m.sig.ident.to_string()));
            children.append(&mut conv_block_items(&m.block));
        } else {
            members.push(MemberDecl::OtherMember);
        }
    }
    (members, children)
}

/// Relies on syn's `ItemImpl`: the implementing type's literal text, the
/// implemented interface's path text when one is named, and the members.
#[verifier::external_body]
fn conv_impl(i: &syn::ItemImpl) -> ItemNode {
    let (members, children) = conv_impl_items(i);
    ItemNode {
        kind: ItemKind::ImplBlock(ImplDecl {
            target_type: i.self_ty.to_token_stream().to_string(),
            trait_name: i.trait_.as_ref().map(|(_, path, _)| path.to_token_stream().to_string()),
            members,
        }),
        children,
    }
}

/// Relies on syn's `ItemUse` and quote's rendering: the whole import
/// statement as one literal textual form.
#[verifier::external_body]
fn conv_use(u: &syn::ItemUse) -> ItemNode {
    ItemNode {
        kind: ItemKind::Import(u.to_token_stream().to_string()),
        children: Vec::new(),
    }
}

/// Relies on syn's `ItemMod`: a module yields no record of its own; its
/// content items become children.
#[verifier::external_body]
fn conv_mod(m: &syn::ItemMod) -> ItemNode {
    let mut children: Vec<ItemNode> = Vec::new();
    if let Some((_, its)) = &m.content {
        children = conv_items(its);
    }
    ItemNode { kind: ItemKind::OtherItem, children }
}

/// Relies on syn's `Item`: the six declaration kinds the walker recognizes
/// are handed over; every other kind becomes a childless unrecognized node.
#[verifier::external_body]
fn conv_item(it: &syn::Item) -> ItemNode {
    match it {
        syn::Item::Fn(f) => conv_fn(f),
        syn::Item::Struct(s) => conv_struct(s),
        syn::Item::Trait(t) => conv_trait(t),
        syn::Item::Impl(i) => conv_impl(i),
        syn::Item::Use(u) => conv_use(u),
        syn::Item::Mod(m) => conv_mod(m),
        _ => ItemNode { kind: ItemKind::OtherItem, children: Vec::new() },
    }
}

/// Relies on syn's `Item` list rendering: one node per top-level item, in
/// order.
#[verifier::external_body]
fn conv_items(items: &[syn::Item]) -> Vec<ItemNode> {
    let mut out: Vec<ItemNode> = Vec::new();
    for it in items.iter() {
        out.push(conv_item(it));
    }
    out
}

/// Relies on syn::parse_file: the text either parses into a tree, rendered
/// here into the library's nodes, or yields one human-readable diagnostic;
/// either outcome is a function of the text alone, named by [`parse_of`].
#[verifier::external_body]
fn parse_source_tree(source: &str) -> (r: Result<Vec<ItemNode>, String>)
    ensures
        (r is Ok) == (parse_of(source@) is Ok),
        (r matches Ok(v) ==> nodes_view(v@) == parse_of(source@)->Ok_0),
        (r matches Err(e) ==> e@ == parse_of(source@)->Err_0),
{
    match syn::parse_file(source) {
        Ok(file) => Ok(conv_items(&file.items)),
        Err(e) => Err(e.to_string()),
    }
}

/// The report a text that fails to parse gets: an empty inventory, the
/// forced `"unknown"` classification, and exactly one error entry carrying
/// the parser's diagnostic behind a parse-error prefix.
pub open spec fn failure_report(diag: Seq<char>) -> ReportV {
    ReportV {
        functions: Seq::empty(),
        structs: Seq::empty(),
        traits: Seq::empty(),
        impl_blocks: Seq::empty(),
        unsafe_blocks: Seq::empty(),
        attributes: Seq::empty(),
        uses: Seq::empty(),
        contract_type: "unknown"@,
        errors: seq!["Parse error: "@ + diag],
    }
}

/// A report for a text that failed to parse always has empty record lists,
/// the `"unknown"` classification, and exactly one error entry, which
/// carries the word `error` as its diagnostic marker, whatever diagnostic
/// the parser produced.
pub proof fn lemma_failure_report_shape(diag: Seq<char>)
    ensures
        failure_report(diag).functions.len() == 0,
        failure_report(diag).structs.len() == 0,
        failure_report(diag).traits.len() == 0,
        failure_report(diag).impl_blocks.len() == 0,
        failure_report(diag).uses.len() == 0,
        failure_report(diag).contract_type == "unknown"@,
        failure_report(diag).errors.len() == 1,
        crate::text::contains_seq(failure_report(diag).errors[0], "error"@),
{
    reveal_strlit("Parse error: ");
    reveal_strlit("error");
    let s = "Parse error: "@ + diag;
    assert(s.subrange(6, 6 + "error"@.len() as int) =~= "error"@);
}

/// The report of one source text: if the text parses, the classification
/// label from the raw text plus every record of the walked tree, with no
/// errors; if it does not, the failure report. Never a hybrid.
pub open spec fn report_of_source(s: Seq<char>) -> ReportV {
    match parse_of(s) {
        Ok(items) => report_add(empty_report_with(classify_label(s)), walk_items_v(items)),
        Err(diag) => failure_report(diag),
    }
}

/// Analyzes one source text: classification always runs on the raw text;
/// on parse success the whole tree is walked into records, on parse
/// failure the report carries the `"unknown"` label, empty record lists
/// and exactly one error entry.
pub fn parse_rust_source(source: &str) -> (r: ParseResult)
    ensures
        r@ == report_of_source(source@),
{
    match parse_source_tree(source) {
        Ok(items) => {
            let mut visitor = RustVisitor::new(source);
            visitor.visit_items(&items);
            visitor.result
        },
        Err(e) => {
            let mut msg = String::from_str("Parse error: ");
            msg.append(e.as_str());
            let mut errors: Vec<String> = Vec::new();
            errors.push(msg);
            let result = ParseResult {
                functions: Vec::new(),
                structs: Vec::new(),
                traits: Vec::new(),
                impl_blocks: Vec::new(),
                unsafe_blocks: Vec::new(),
                attributes: Vec::new(),
                uses: Vec::new(),
                contract_type: String::from_str("unknown"),
                errors,
            };
            proof {
                assert(result@ =~= failure_report(parse_of(source@)->Err_0));
            }
            result
        },
    }
}

} // verus!
