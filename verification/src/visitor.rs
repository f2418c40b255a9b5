//! The tree walker and record normalizer: one depth-first, order-preserving
//! traversal of the syntax tree, emitting one normalized record per
//! recognized declaration kind.

use vstd::prelude::*;
use crate::classify::classify_label;
use crate::classify::classify_source;
use crate::model::lemma_nodes_view_elts;
use crate::model::node_view;
use crate::model::nodes_view;
use crate::model::FieldsDecl;
use crate::model::FieldsDeclV;
use crate::model::FnDecl;
use crate::model::FnDeclV;
use crate::model::ImplDecl;
use crate::model::ImplDeclV;
use crate::model::ItemKind;
use crate::model::ItemKindV;
use crate::model::ItemNode;
use crate::model::ItemNodeV;
use crate::model::MemberDecl;
use crate::model::MemberDeclV;
use crate::model::NamedFieldDecl;
use crate::model::NamedFieldV;
use crate::model::ParamDecl;
use crate::model::ParamDeclV;
use crate::model::PosFieldDecl;
use crate::model::PosFieldV;
use crate::model::StructDecl;
use crate::model::StructDeclV;
use crate::model::TraitDecl;
use crate::model::TraitDeclV;
use crate::model::VisibilityKind;
use crate::records::strings_view;
use crate::records::FieldV;
use crate::records::FunctionV;
use crate::records::ImplV;
use crate::records::ParameterV;
use crate::records::ParseResult;
use crate::records::ParsedField;
use crate::records::ParsedFunction;
use crate::records::ParsedImpl;
use crate::records::ParsedParameter;
use crate::records::ParsedStruct;
use crate::records::ParsedTrait;
use crate::records::ReportV;
use crate::records::StructV;
use crate::records::TraitV;
use crate::text::field_name_for_index;
use crate::text::positional_field_name;

verus! {

/// The five record lists one stretch of the traversal contributes.
#[verifier::ext_equal]
pub struct RecsV {
    pub functions: Seq<FunctionV>,
    pub structs: Seq<StructV>,
    pub traits: Seq<TraitV>,
    pub impl_blocks: Seq<ImplV>,
    pub uses: Seq<Seq<char>>,
}

/// No records at all.
pub open spec fn recs_empty() -> RecsV {
    RecsV {
        functions: Seq::empty(),
        structs: Seq::empty(),
        traits: Seq::empty(),
        impl_blocks: Seq::empty(),
        uses: Seq::empty(),
    }
}

/// Record lists of two traversal stretches, in order.
pub open spec fn recs_cat(a: RecsV, b: RecsV) -> RecsV {
    RecsV {
        functions: a.functions + b.functions,
        structs: a.structs + b.structs,
        traits: a.traits + b.traits,
        impl_blocks: a.impl_blocks + b.impl_blocks,
        uses: a.uses + b.uses,
    }
}

pub proof fn lemma_recs_cat_empty(a: RecsV)
    ensures
        recs_cat(a, recs_empty()) == a,
        recs_cat(recs_empty(), a) == a,
{
    assert(recs_cat(a, recs_empty()) =~= a);
    assert(recs_cat(recs_empty(), a) =~= a);
}

pub proof fn lemma_recs_cat_assoc(a: RecsV, b: RecsV, c: RecsV)
    ensures
        recs_cat(recs_cat(a, b), c) == recs_cat(a, recs_cat(b, c)),
{
    assert(recs_cat(recs_cat(a, b), c) =~= recs_cat(a, recs_cat(b, c)));
}

/// The textual form of a visibility modifier. Total over the three
/// recognized shapes; no fourth value exists.
pub open spec fn vis_label(v: VisibilityKind) -> Seq<char> {
    match v {
        VisibilityKind::Public => "pub"@,
        VisibilityKind::Restricted => "pub(restricted)"@,
        VisibilityKind::Inherited => "private"@,
    }
}

/// Visibility mapping is a total function into a three-value range: every
/// modifier shape maps to one of the three labels, and no other value is
/// ever produced.
pub proof fn lemma_visibility_total(v: VisibilityKind)
    ensures
        vis_label(v) == "pub"@ || vis_label(v) == "pub(restricted)"@ || vis_label(v)
            == "private"@,
{
}

/// What one parameter contributes to the parameter list: simple
/// identifier-bound parameters yield one record, destructured ones none.
pub open spec fn param_contrib(p: ParamDeclV) -> Seq<ParameterV> {
    match p {
        ParamDeclV::Simple { name, param_type, is_mutable } => seq![
            ParameterV { name, param_type, is_mutable },
        ],
        ParamDeclV::Patterned => Seq::empty(),
    }
}

/// The parameter records of a declared parameter list, in declaration order.
pub open spec fn simple_params(ps: Seq<ParamDeclV>) -> Seq<ParameterV>
    decreases ps,
{
    if ps.len() == 0 {
        Seq::empty()
    } else {
        param_contrib(ps[0]) + simple_params(ps.drop_first())
    }
}

pub proof fn lemma_simple_params_snoc(ps: Seq<ParamDeclV>, x: ParamDeclV)
    ensures
        simple_params(ps.push(x)) == simple_params(ps) + param_contrib(x),
    decreases ps,
{
    let l = ps.push(x);
    if ps.len() == 0 {
        assert(l[0] == x);
        assert(l.drop_first() =~= Seq::<ParamDeclV>::empty());
        assert(simple_params(l.drop_first()) == Seq::<ParameterV>::empty());
        assert(simple_params(l) == param_contrib(x) + simple_params(l.drop_first()));
        assert(simple_params(l) =~= simple_params(ps) + param_contrib(x));
    } else {
        lemma_simple_params_snoc(ps.drop_first(), x);
        assert(l[0] == ps[0]);
        assert(l.drop_first() =~= ps.drop_first().push(x));
        assert(simple_params(l) == param_contrib(ps[0]) + simple_params(l.drop_first()));
        assert(simple_params(ps) == param_contrib(ps[0]) + simple_params(ps.drop_first()));
        assert(simple_params(l) =~= simple_params(ps) + param_contrib(x));
    }
}

/// What one interface or implementation member contributes to the method
/// list: function-shaped members yield their name, others nothing.
pub open spec fn method_contrib(m: MemberDeclV) -> Seq<Seq<char>> {
    match m {
        MemberDeclV::Method(n) => seq![n],
        MemberDeclV::OtherMember => Seq::empty(),
    }
}

/// The method names of an interface or implementation body, in declaration
/// order.
pub open spec fn member_methods(ms: Seq<MemberDeclV>) -> Seq<Seq<char>>
    decreases ms,
{
    if ms.len() == 0 {
        Seq::empty()
    } else {
        method_contrib(ms[0]) + member_methods(ms.drop_first())
    }
}

pub proof fn lemma_member_methods_snoc(ms: Seq<MemberDeclV>, x: MemberDeclV)
    ensures
        member_methods(ms.push(x)) == member_methods(ms) + method_contrib(x),
    decreases ms,
{
    let l = ms.push(x);
    if ms.len() == 0 {
        assert(l[0] == x);
        assert(l.drop_first() =~= Seq::<MemberDeclV>::empty());
        assert(member_methods(l.drop_first()) == Seq::<Seq<char>>::empty());
        assert(member_methods(l) == method_contrib(x) + member_methods(l.drop_first()));
        assert(member_methods(l) =~= member_methods(ms) + method_contrib(x));
    } else {
        lemma_member_methods_snoc(ms.drop_first(), x);
        assert(l[0] == ms[0]);
        assert(l.drop_first() =~= ms.drop_first().push(x));
        assert(member_methods(l) == method_contrib(ms[0]) + member_methods(l.drop_first()));
        assert(member_methods(ms) == method_contrib(ms[0]) + member_methods(ms.drop_first()));
        assert(member_methods(l) =~= member_methods(ms) + method_contrib(x));
    }
}

/// The field records of a named-field list: declared names are kept.
pub open spec fn named_fields(fs: Seq<NamedFieldV>) -> Seq<FieldV> {
    fs.map_values(
        |f: NamedFieldV|
            FieldV { name: f.name, field_type: f.field_type, visibility: vis_label(f.visibility) },
    )
}

/// The field records of a positional-field list: the field at index `i` gets
/// the synthesized name `field_<i>`.
pub open spec fn positional_fields(fs: Seq<PosFieldV>) -> Seq<FieldV> {
    Seq::new(
        fs.len(),
        |i: int|
            FieldV {
                name: positional_field_name(i as nat),
                field_type: fs[i].field_type,
                visibility: vis_label(fs[i].visibility),
            },
    )
}

/// Positional-field structures carry synthesized names `field_0, field_1, …`
/// in strictly increasing index order, matching declaration order: the
/// record at position `i` is the declared field at position `i` under the
/// name `field_<i>`.
pub proof fn lemma_positional_field_names(fs: Seq<PosFieldV>)
    ensures
        positional_fields(fs).len() == fs.len(),
        forall|i: int| 0 <= i < fs.len() ==> (#[trigger] positional_fields(fs)[i]).name
            == positional_field_name(i as nat),
        forall|i: int| 0 <= i < fs.len() ==> (#[trigger] positional_fields(fs)[i]).field_type
            == fs[i].field_type,
        forall|i: int| 0 <= i < fs.len() ==> (#[trigger] positional_fields(fs)[i]).visibility
            == vis_label(fs[i].visibility),
{
}

/// The field records of a data-structure declaration: named fields keep
/// their names, positional fields get synthesized names, unit structures
/// have none.
pub open spec fn fields_records(f: FieldsDeclV) -> Seq<FieldV> {
    match f {
        FieldsDeclV::Named(fs) => named_fields(fs),
        FieldsDeclV::Positional(fs) => positional_fields(fs),
        FieldsDeclV::Unit => Seq::empty(),
    }
}

/// The record of one function declaration.
pub open spec fn function_record(d: FnDeclV) -> FunctionV {
    FunctionV {
        name: d.name,
        visibility: vis_label(d.visibility),
        parameters: simple_params(d.params),
        return_type: d.return_type,
        attributes: d.attributes,
        is_async: d.is_async,
        is_unsafe: d.is_unsafe,
        line_start: 1,
        line_end: 1,
    }
}

/// The record of one data-structure declaration.
pub open spec fn struct_record(d: StructDeclV) -> StructV {
    StructV {
        name: d.name,
        visibility: vis_label(d.visibility),
        fields: fields_records(d.fields),
        attributes: d.attributes,
        line_start: 1,
        line_end: 1,
    }
}

/// The record of one interface declaration.
pub open spec fn trait_record(d: TraitDeclV) -> TraitV {
    TraitV {
        name: d.name,
        visibility: vis_label(d.visibility),
        methods: member_methods(d.members),
        attributes: d.attributes,
        line_start: 1,
        line_end: 1,
    }
}

/// The record of one implementation block.
pub open spec fn impl_record(d: ImplDeclV) -> ImplV {
    ImplV {
        target_type: d.target_type,
        trait_name: d.trait_name,
        methods: member_methods(d.members),
        line_start: 1,
        line_end: 1,
    }
}

/// What one declaration contributes to the report: one record in the list
/// of its kind, nothing anywhere else. Unrecognized kinds contribute
/// nothing.
pub open spec fn recs_of_kind(k: ItemKindV) -> RecsV {
    match k {
        ItemKindV::Function(d) => RecsV { functions: seq![function_record(d)], ..recs_empty() },
        ItemKindV::Structure(d) => RecsV { structs: seq![struct_record(d)], ..recs_empty() },
        ItemKindV::Interface(d) => RecsV { traits: seq![trait_record(d)], ..recs_empty() },
        ItemKindV::ImplBlock(d) => RecsV { impl_blocks: seq![impl_record(d)], ..recs_empty() },
        ItemKindV::Import(u) => RecsV { uses: seq![u], ..recs_empty() },
        ItemKindV::OtherItem => recs_empty(),
    }
}

/// The records of one node in preorder: its own record first, then the
/// records of its children.
pub open spec fn walk_node_v(n: ItemNodeV) -> RecsV
    decreases n,
{
    recs_cat(recs_of_kind(n.kind), walk_items_v(n.children))
}

/// The records of a node sequence in declaration order.
pub open spec fn walk_items_v(s: Seq<ItemNodeV>) -> RecsV
    decreases s,
{
    if s.len() == 0 {
        recs_empty()
    } else {
        recs_cat(walk_node_v(s[0]), walk_items_v(s.drop_first()))
    }
}

pub proof fn lemma_walk_items_snoc(s: Seq<ItemNodeV>, x: ItemNodeV)
    ensures
        walk_items_v(s.push(x)) == recs_cat(walk_items_v(s), walk_node_v(x)),
    decreases s,
{
    let l = s.push(x);
    if s.len() == 0 {
        assert(l[0] == x);
        assert(l.drop_first() =~= Seq::<ItemNodeV>::empty());
        assert(walk_items_v(l.drop_first()) == recs_empty());
        assert(walk_items_v(l) == recs_cat(walk_node_v(x), walk_items_v(l.drop_first())));
        lemma_recs_cat_empty(walk_node_v(x));
        assert(walk_items_v(l) == recs_cat(walk_items_v(s), walk_node_v(x)));
    } else {
        lemma_walk_items_snoc(s.drop_first(), x);
        assert(l[0] == s[0]);
        assert(l.drop_first() =~= s.drop_first().push(x));
        assert(walk_items_v(l) == recs_cat(walk_node_v(s[0]), walk_items_v(l.drop_first())));
        assert(walk_items_v(s) == recs_cat(walk_node_v(s[0]), walk_items_v(s.drop_first())));
        lemma_recs_cat_assoc(walk_node_v(s[0]), walk_items_v(s.drop_first()), walk_node_v(x));
        assert(walk_items_v(l) == recs_cat(walk_items_v(s), walk_node_v(x)));
    }
}

/// A report extended by the records of one traversal stretch; the
/// classification, the error list and the reserved lists are untouched.
pub open spec fn report_add(r: ReportV, d: RecsV) -> ReportV {
    ReportV {
        functions: r.functions + d.functions,
        structs: r.structs + d.structs,
        traits: r.traits + d.traits,
        impl_blocks: r.impl_blocks + d.impl_blocks,
        uses: r.uses + d.uses,
        unsafe_blocks: r.unsafe_blocks,
        attributes: r.attributes,
        contract_type: r.contract_type,
        errors: r.errors,
    }
}

pub proof fn lemma_report_add_empty(r: ReportV)
    ensures
        report_add(r, recs_empty()) == r,
{
    assert(report_add(r, recs_empty()) =~= r);
}

pub proof fn lemma_report_add_cat(r: ReportV, a: RecsV, b: RecsV)
    ensures
        report_add(report_add(r, a), b) == report_add(r, recs_cat(a, b)),
{
    assert(report_add(report_add(r, a), b) =~= report_add(r, recs_cat(a, b)));
}

/// An empty report carrying only a classification label.
pub open spec fn empty_report_with(label: Seq<char>) -> ReportV {
    ReportV {
        functions: Seq::empty(),
        structs: Seq::empty(),
        traits: Seq::empty(),
        impl_blocks: Seq::empty(),
        unsafe_blocks: Seq::empty(),
        attributes: Seq::empty(),
        uses: Seq::empty(),
        contract_type: label,
        errors: Seq::empty(),
    }
}

fn clone_strings(v: &Vec<String>) -> (r: Vec<String>)
    ensures
        r@ == v@,
{
    let mut r: Vec<String> = Vec::new();
    let mut i: usize = 0;
    while i < v.len()
        invariant
            i <= v.len(),
            r@ == v@.take(i as int),
        decreases v.len() - i,
    {
        r.push(v[i].clone());
        i += 1;
        proof {
            assert(r@ =~= v@.take(i as int));
        }
    }
    proof {
        assert(r@ =~= v@);
    }
    r
}

/// The tree walker: collects the records of every declaration it visits
/// into its result, in traversal order.
pub struct RustVisitor {
    pub result: ParseResult,
}

impl RustVisitor {
    /// A fresh visitor for `source`: the record and error lists are empty
    /// and the classification label is already assigned from the raw text.
    pub fn new(source: &str) -> (r: Self)
        ensures
            r.result@ == empty_report_with(classify_label(source@)),
    {
        let mut visitor = RustVisitor {
            result: ParseResult {
                functions: Vec::new(),
                structs: Vec::new(),
                traits: Vec::new(),
                impl_blocks: Vec::new(),
                unsafe_blocks: Vec::new(),
                attributes: Vec::new(),
                uses: Vec::new(),
                contract_type: String::new(),
                errors: Vec::new(),
            },
        };
        visitor.detect_contract_type(source);
        proof {
            assert(visitor.result@ =~= empty_report_with(classify_label(source@)));
        }
        visitor
    }

    /// Assigns the classification label for `source`; every other part of
    /// the result is left as it was.
    pub fn detect_contract_type(&mut self, source: &str)
        ensures
            final(self).result@ == (ReportV {
                contract_type: classify_label(source@),
                ..old(self).result@
            }),
    {
        self.result.contract_type = classify_source(source);
        proof {
            assert(self.result@ =~= (ReportV {
                contract_type: classify_label(source@),
                ..old(self).result@
            }));
        }
    }

    /// Precise source locations are not available from the tree the parser
    /// boundary hands over, so every record carries the sentinel span
    /// `(1, 1)` rather than failing.
    pub fn get_line_numbers(&self) -> (r: (usize, usize))
        ensures
            r.0 == 1,
            r.1 == 1,
    {
        (1, 1)
    }

    /// The textual form of a visibility modifier.
    pub fn visibility_to_string(vis: &VisibilityKind) -> (r: String)
        ensures
            r@ == vis_label(*vis),
    {
        match vis {
            VisibilityKind::Public => String::from_str("pub"),
            VisibilityKind::Restricted => String::from_str("pub(restricted)"),
            VisibilityKind::Inherited => String::from_str("private"),
        }
    }

    /// Records one function declaration: parameters are collected only for
    /// simple identifier bindings, in declaration order; the async and
    /// unsafe flags are read directly from the declaration.
    pub fn visit_item_fn(&mut self, node: &FnDecl)
        ensures
            final(self).result@ == report_add(
                old(self).result@,
                recs_of_kind(ItemKindV::Function(node@)),
            ),
    {
        let ghost psv: Seq<ParamDeclV> = node.params@.map_values(|p: ParamDecl| p@);
        let mut parameters: Vec<ParsedParameter> = Vec::new();
        let mut i: usize = 0;
        proof {
            assert(psv.take(0) =~= Seq::<ParamDeclV>::empty());
            assert(parameters@.map_values(|p: ParsedParameter| p@) =~= simple_params(
                psv.take(0),
            ));
        }
        while i < node.params.len()
            invariant
                i <= node.params.len(),
                psv == node.params@.map_values(|p: ParamDecl| p@),
                parameters@.map_values(|p: ParsedParameter| p@) == simple_params(
                    psv.take(i as int),
                ),
            decreases node.params.len() - i,
        {
            let ghost before = parameters@.map_values(|p: ParsedParameter| p@);
            proof {
                assert(psv[i as int] == node.params@[i as int]@);
            }
            match &node.params[i] {
                ParamDecl::Simple { name, param_type, is_mutable } => {
                    let rec = ParsedParameter {
                        name: name.clone(),
                        param_type: param_type.clone(),
                        is_mutable: *is_mutable,
                    };
                    parameters.push(rec);
                    proof {
                        assert(parameters@.map_values(|p: ParsedParameter| p@) =~= before
                            + param_contrib(psv[i as int]));
                    }
                },
                ParamDecl::Patterned => {
                    proof {
                        assert(parameters@.map_values(|p: ParsedParameter| p@) =~= before
                            + param_contrib(psv[i as int]));
                    }
                },
            }
            proof {
                lemma_simple_params_snoc(psv.take(i as int), psv[i as int]);
                assert(psv.take(i as int + 1) =~= psv.take(i as int).push(psv[i as int]));
            }
            i += 1;
        }
        proof {
            assert(psv.take(node.params@.len() as int) =~= psv);
        }
        let return_type: Option<String> = match &node.return_type {
            Some(t) => Some(t.clone()),
            None => None,
        };
        let (line_start, line_end) = self.get_line_numbers();
        let function = ParsedFunction {
            name: node.name.clone(),
            visibility: Self::visibility_to_string(&node.visibility),
            parameters,
            return_type,
            attributes: clone_strings(&node.attributes),
            is_async: node.is_async,
            is_unsafe: node.is_unsafe,
            line_start,
            line_end,
        };
        proof {
            assert(function@ =~= function_record(node@));
        }
        self.result.functions.push(function);
        proof {
            assert(self.result@ =~= report_add(
                old(self).result@,
                recs_of_kind(ItemKindV::Function(node@)),
            ));
        }
    }

    /// Records one data-structure declaration: named fields keep their
    /// declared names, positional fields get synthesized names
    /// `field_0, field_1, …` in declaration order, unit structures have an
    /// empty field list.
    pub fn visit_item_struct(&mut self, node: &StructDecl)
        ensures
            final(self).result@ == report_add(
                old(self).result@,
                recs_of_kind(ItemKindV::Structure(node@)),
            ),
    {
        let mut fields: Vec<ParsedField> = Vec::new();
        match &node.fields {
            FieldsDecl::Named(fs) => {
                let ghost fsv: Seq<NamedFieldV> = fs@.map_values(|f: NamedFieldDecl| f@);
                let mut i: usize = 0;
                while i < fs.len()
                    invariant
                        i <= fs.len(),
                        fsv == fs@.map_values(|f: NamedFieldDecl| f@),
                        fields@.map_values(|f: ParsedField| f@) == named_fields(fsv).take(
                            i as int,
                        ),
                    decreases fs.len() - i,
                {
                    proof {
                        assert(fsv[i as int] == fs@[i as int]@);
                    }
                    let rec = ParsedField {
                        name: fs[i].name.clone(),
                        field_type: fs[i].field_type.clone(),
                        visibility: Self::visibility_to_string(&fs[i].visibility),
                    };
                    let ghost recv = rec@;
                    let ghost before = fields@.map_values(|f: ParsedField| f@);
                    proof {
                        assert(recv == named_fields(fsv)[i as int]);
                    }
                    fields.push(rec);
                    proof {
                        assert(fields@.map_values(|f: ParsedField| f@) =~= before.push(recv));
                        assert(named_fields(fsv).take(i as int + 1) =~= named_fields(fsv).take(
                            i as int,
                        ).push(recv));
                    }
                    i += 1;
                }
                proof {
                    assert(named_fields(fsv).take(fs@.len() as int) =~= named_fields(fsv));
                }
            },
            FieldsDecl::Positional(fs) => {
                let ghost fsv: Seq<PosFieldV> = fs@.map_values(|f: PosFieldDecl| f@);
                let mut i: usize = 0;
                while i < fs.len()
                    invariant
                        i <= fs.len(),
                        fsv == fs@.map_values(|f: PosFieldDecl| f@),
                        fields@.map_values(|f: ParsedField| f@) == positional_fields(fsv).take(
                            i as int,
                        ),
                    decreases fs.len() - i,
                {
                    proof {
                        assert(fsv[i as int] == fs@[i as int]@);
                    }
                    let rec = ParsedField {
                        name: field_name_for_index(i),
                        field_type: fs[i].field_type.clone(),
                        visibility: Self::visibility_to_string(&fs[i].visibility),
                    };
                    let ghost recv = rec@;
                    let ghost before = fields@.map_values(|f: ParsedField| f@);
                    proof {
                        assert(recv == positional_fields(fsv)[i as int]);
                    }
                    fields.push(rec);
                    proof {
                        assert(fields@.map_values(|f: ParsedField| f@) =~= before.push(recv));
                        assert(positional_fields(fsv).take(i as int + 1) =~= positional_fields(
                            fsv,
                        ).take(i as int).push(recv));
                    }
                    i += 1;
                }
                proof {
                    assert(positional_fields(fsv).take(fs@.len() as int) =~= positional_fields(
                        fsv,
                    ));
                }
            },
            FieldsDecl::Unit => {
                proof {
                    assert(fields@.map_values(|f: ParsedField| f@) =~= fields_records(
                        node.fields@,
                    ));
                }
            },
        }
        let (line_start, line_end) = self.get_line_numbers();
        let struct_info = ParsedStruct {
            name: node.name.clone(),
            visibility: Self::visibility_to_string(&node.visibility),
            fields,
            attributes: clone_strings(&node.attributes),
            line_start,
            line_end,
        };
        proof {
            assert(struct_info@ =~= struct_record(node@));
        }
        self.result.structs.push(struct_info);
        proof {
            assert(self.result@ =~= report_add(
                old(self).result@,
                recs_of_kind(ItemKindV::Structure(node@)),
            ));
        }
    }

    /// The method names of an interface or implementation body:
    /// function-shaped members only, in declaration order.
    fn collect_methods(members: &Vec<MemberDecl>) -> (r: Vec<String>)
        ensures
            strings_view(r@) == member_methods(members@.map_values(|m: MemberDecl| m@)),
    {
        let ghost msv: Seq<MemberDeclV> = members@.map_values(|m: MemberDecl| m@);
        let mut methods: Vec<String> = Vec::new();
        let mut i: usize = 0;
        proof {
            assert(msv.take(0) =~= Seq::<MemberDeclV>::empty());
            assert(strings_view(methods@) =~= member_methods(msv.take(0)));
        }
        while i < members.len()
            invariant
                i <= members.len(),
                msv == members@.map_values(|m: MemberDecl| m@),
                strings_view(methods@) == member_methods(msv.take(i as int)),
            decreases members.len() - i,
        {
            let ghost before = strings_view(methods@);
            proof {
                assert(msv[i as int] == members@[i as int]@);
            }
            match &members[i] {
                MemberDecl::Method(nm) => {
                    methods.push(nm.clone());
                    proof {
                        assert(strings_view(methods@) =~= before + method_contrib(
                            msv[i as int],
                        ));
                    }
                },
                MemberDecl::OtherMember => {
                    proof {
                        assert(strings_view(methods@) =~= before + method_contrib(
                            msv[i as int],
                        ));
                    }
                },
            }
            proof {
                lemma_member_methods_snoc(msv.take(i as int), msv[i as int]);
                assert(msv.take(i as int + 1) =~= msv.take(i as int).push(msv[i as int]));
            }
            i += 1;
        }
        proof {
            assert(msv.take(members@.len() as int) =~= msv);
        }
        methods
    }

    /// Records one interface declaration: only function-shaped members are
    /// collected into the method list; other member kinds are skipped.
    pub fn visit_item_trait(&mut self, node: &TraitDecl)
        ensures
            final(self).result@ == report_add(
                old(self).result@,
                recs_of_kind(ItemKindV::Interface(node@)),
            ),
    {
        let (line_start, line_end) = self.get_line_numbers();
        let trait_info = ParsedTrait {
            name: node.name.clone(),
            visibility: Self::visibility_to_string(&node.visibility),
            methods: Self::collect_methods(&node.members),
            attributes: clone_strings(&node.attributes),
            line_start,
            line_end,
        };
        proof {
            assert(trait_info@ =~= trait_record(node@));
        }
        self.result.traits.push(trait_info);
        proof {
            assert(self.result@ =~= report_add(
                old(self).result@,
                recs_of_kind(ItemKindV::Interface(node@)),
            ));
        }
    }

    /// Records one implementation block: the implemented interface name is
    /// present exactly when the block implements one; the method list
    /// collects the function-shaped members only.
    pub fn visit_item_impl(&mut self, node: &ImplDecl)
        ensures
            final(self).result@ == report_add(
                old(self).result@,
                recs_of_kind(ItemKindV::ImplBlock(node@)),
            ),
    {
        let trait_name: Option<String> = match &node.trait_name {
            Some(t) => Some(t.clone()),
            None => None,
        };
        let (line_start, line_end) = self.get_line_numbers();
        let impl_info = ParsedImpl {
            target_type: node.target_type.clone(),
            trait_name,
            methods: Self::collect_methods(&node.members),
            line_start,
            line_end,
        };
        proof {
            assert(impl_info@ =~= impl_record(node@));
        }
        self.result.impl_blocks.push(impl_info);
        proof {
            assert(self.result@ =~= report_add(
                old(self).result@,
                recs_of_kind(ItemKindV::ImplBlock(node@)),
            ));
        }
    }

    /// Records one import declaration, already rendered to its literal
    /// textual form.
    pub fn visit_item_use(&mut self, use_text: &String)
        ensures
            final(self).result@ == report_add(
                old(self).result@,
                recs_of_kind(ItemKindV::Import(use_text@)),
            ),
    {
        self.result.uses.push(use_text.clone());
        proof {
            assert(self.result@ =~= report_add(
                old(self).result@,
                recs_of_kind(ItemKindV::Import(use_text@)),
            ));
        }
    }

    /// Visits one tree node in preorder: the node's own record first, then
    /// every declaration nested under it.
    pub fn visit_item(&mut self, node: &ItemNode)
        ensures
            final(self).result@ == report_add(old(self).result@, walk_node_v(node_view(*node))),
        decreases *node,
    {
        match &node.kind {
            ItemKind::Function(d) => self.visit_item_fn(d),
            ItemKind::Structure(d) => self.visit_item_struct(d),
            ItemKind::Interface(d) => self.visit_item_trait(d),
            ItemKind::ImplBlock(d) => self.visit_item_impl(d),
            ItemKind::Import(u) => self.visit_item_use(u),
            ItemKind::OtherItem => {
                proof {
                    lemma_report_add_empty(self.result@);
                }
            },
        }
        let ghost mid = self.result@;
        proof {
            assert(mid == report_add(old(self).result@, recs_of_kind(node.kind@)));
        }
        self.visit_items(&node.children);
        proof {
            lemma_report_add_cat(
                old(self).result@,
                recs_of_kind(node.kind@),
                walk_items_v(nodes_view(node.children@)),
            );
            assert(node_view(*node).kind == node.kind@);
            assert(node_view(*node).children == nodes_view(node.children@));
        }
    }

    /// Visits a sequence of tree nodes in declaration order.
    pub fn visit_items(&mut self, items: &Vec<ItemNode>)
        ensures
            final(self).result@ == report_add(
                old(self).result@,
                walk_items_v(nodes_view(items@)),
            ),
        decreases items@,
    {
        let ghost full: Seq<ItemNodeV> = nodes_view(items@);
        let mut i: usize = 0;
        proof {
            lemma_nodes_view_elts(items@);
            assert(full.take(0) =~= Seq::<ItemNodeV>::empty());
            lemma_report_add_empty(old(self).result@);
        }
        while i < items.len()
            invariant
                i <= items.len(),
                full == nodes_view(items@),
                full.len() == items@.len(),
                forall|k: int| 0 <= k < items@.len() ==> full[k] == node_view(items@[k]),
                self.result@ == report_add(old(self).result@, walk_items_v(full.take(i as int))),
            decreases items.len() - i,
        {
            let ghost pre = self.result@;
            self.visit_item(&items[i]);
            proof {
                lemma_walk_items_snoc(full.take(i as int), full[i as int]);
                assert(full.take(i as int + 1) =~= full.take(i as int).push(full[i as int]));
                lemma_report_add_cat(
                    old(self).result@,
                    walk_items_v(full.take(i as int)),
                    walk_node_v(full[i as int]),
                );
            }
            i += 1;
        }
        proof {
            assert(full.take(items@.len() as int) =~= full);
        }
    }
}

/// A flat run of function declarations yields exactly one function record
/// per declaration, in order, each normalized from the declaration at the
/// same position: counts, parameter order and the async/unsafe flags are
/// all preserved.
pub proof fn lemma_function_count(items: Seq<ItemNodeV>)
    requires
        forall|i: int| 0 <= i < items.len() ==> (#[trigger] items[i]).kind is Function,
        forall|i: int| 0 <= i < items.len() ==> (#[trigger] items[i]).children.len() == 0,
    ensures
        walk_items_v(items).functions.len() == items.len(),
        forall|i: int| 0 <= i < items.len() ==> #[trigger] walk_items_v(items).functions[i]
            == function_record(items[i].kind->Function_0),
    decreases items,
{
    if items.len() > 0 {
        lemma_function_count(items.drop_first());
        let first = items[0];
        assert(first.kind is Function);
        assert(walk_node_v(first) == recs_cat(
            recs_of_kind(first.kind),
            walk_items_v(first.children),
        ));
        assert(first.children.len() == 0);
        assert(first.children =~= Seq::<ItemNodeV>::empty());
        lemma_recs_cat_empty(recs_of_kind(first.kind));
        assert(forall|i: int|
            0 < i < items.len() ==> items.drop_first()[i - 1] == #[trigger] items[i]);
    }
}

} // verus!
