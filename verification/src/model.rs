//! The library's own shape for a parsed syntax tree: one node per
//! declaration, with the attributes the normalizer reads held as plain
//! values, and child declarations (module contents, items nested in function
//! bodies) held recursively.

use vstd::prelude::*;

verus! {

/// The three visibility modifier shapes a declaration can carry.
#[derive(Clone, Copy, PartialEq, Eq, Structural)]
pub enum VisibilityKind {
    /// A fully public modifier.
    Public,
    /// A scoped modifier such as `pub(crate)` or `pub(in path)`.
    Restricted,
    /// No modifier written at all.
    Inherited,
}

/// One declared function parameter.
pub enum ParamDecl {
    /// A parameter bound to a simple identifier.
    Simple { name: String, param_type: String, is_mutable: bool },
    /// A parameter bound through a destructuring pattern; the normalizer
    /// skips it.
    Patterned,
}

/// One named field of a data structure.
pub struct NamedFieldDecl {
    pub name: String,
    pub field_type: String,
    pub visibility: VisibilityKind,
}

/// One positional field of a data structure.
pub struct PosFieldDecl {
    pub field_type: String,
    pub visibility: VisibilityKind,
}

/// The field list of a data-structure declaration.
pub enum FieldsDecl {
    Named(Vec<NamedFieldDecl>),
    Positional(Vec<PosFieldDecl>),
    Unit,
}

/// One member of an interface or implementation body.
pub enum MemberDecl {
    /// A function-shaped member, by name.
    Method(String),
    /// Any other member (associated constant, associated type, macro); the
    /// normalizer skips it.
    OtherMember,
}

/// One function declaration.
pub struct FnDecl {
    pub name: String,
    pub visibility: VisibilityKind,
    pub params: Vec<ParamDecl>,
    pub return_type: Option<String>,
    pub attributes: Vec<String>,
    pub is_async: bool,
    pub is_unsafe: bool,
}

/// One data-structure declaration.
pub struct StructDecl {
    pub name: String,
    pub visibility: VisibilityKind,
    pub fields: FieldsDecl,
    pub attributes: Vec<String>,
}

/// One interface-like declaration.
pub struct TraitDecl {
    pub name: String,
    pub visibility: VisibilityKind,
    pub members: Vec<MemberDecl>,
    pub attributes: Vec<String>,
}

/// One implementation block.
pub struct ImplDecl {
    pub target_type: String,
    pub trait_name: Option<String>,
    pub members: Vec<MemberDecl>,
}

/// What one tree node declares.
pub enum ItemKind {
    Function(FnDecl),
    Structure(StructDecl),
    Interface(TraitDecl),
    ImplBlock(ImplDecl),
    /// An import, rendered to its literal textual form.
    Import(String),
    /// A node kind with no registered normalizer; walked for children,
    /// otherwise silently skipped.
    OtherItem,
}

/// One node of the syntax tree: a declaration and the declarations nested
/// under it (module contents, items inside a function body).
pub struct ItemNode {
    pub kind: ItemKind,
    pub children: Vec<ItemNode>,
}

/// Mathematical value of a [`ParamDecl`].
#[verifier::ext_equal]
pub enum ParamDeclV {
    Simple { name: Seq<char>, param_type: Seq<char>, is_mutable: bool },
    Patterned,
}

/// Mathematical value of a [`NamedFieldDecl`].
#[verifier::ext_equal]
pub struct NamedFieldV {
    pub name: Seq<char>,
    pub field_type: Seq<char>,
    pub visibility: VisibilityKind,
}

/// Mathematical value of a [`PosFieldDecl`].
#[verifier::ext_equal]
pub struct PosFieldV {
    pub field_type: Seq<char>,
    pub visibility: VisibilityKind,
}

/// Mathematical value of a [`FieldsDecl`].
#[verifier::ext_equal]
pub enum FieldsDeclV {
    Named(Seq<NamedFieldV>),
    Positional(Seq<PosFieldV>),
    Unit,
}

/// Mathematical value of a [`MemberDecl`].
#[verifier::ext_equal]
pub enum MemberDeclV {
    Method(Seq<char>),
    OtherMember,
}

/// Mathematical value of a [`FnDecl`].
#[verifier::ext_equal]
pub struct FnDeclV {
    pub name: Seq<char>,
    pub visibility: VisibilityKind,
    pub params: Seq<ParamDeclV>,
    pub return_type: Option<Seq<char>>,
    pub attributes: Seq<Seq<char>>,
    pub is_async: bool,
    pub is_unsafe: bool,
}

/// Mathematical value of a [`StructDecl`].
#[verifier::ext_equal]
pub struct StructDeclV {
    pub name: Seq<char>,
    pub visibility: VisibilityKind,
    pub fields: FieldsDeclV,
    pub attributes: Seq<Seq<char>>,
}

/// Mathematical value of a [`TraitDecl`].
#[verifier::ext_equal]
pub struct TraitDeclV {
    pub name: Seq<char>,
    pub visibility: VisibilityKind,
    pub members: Seq<MemberDeclV>,
    pub attributes: Seq<Seq<char>>,
}

/// Mathematical value of an [`ImplDecl`].
#[verifier::ext_equal]
pub struct ImplDeclV {
    pub target_type: Seq<char>,
    pub trait_name: Option<Seq<char>>,
    pub members: Seq<MemberDeclV>,
}

/// Mathematical value of an [`ItemKind`].
#[verifier::ext_equal]
pub enum ItemKindV {
    Function(FnDeclV),
    Structure(StructDeclV),
    Interface(TraitDeclV),
    ImplBlock(ImplDeclV),
    Import(Seq<char>),
    OtherItem,
}

/// Mathematical value of an [`ItemNode`].
#[verifier::ext_equal]
pub struct ItemNodeV {
    pub kind: ItemKindV,
    pub children: Seq<ItemNodeV>,
}

impl View for ParamDecl {
    type V = ParamDeclV;

    open spec fn view(&self) -> ParamDeclV {
        match self {
            ParamDecl::Simple { name, param_type, is_mutable } => ParamDeclV::Simple {
                name: name@,
                param_type: param_type@,
                is_mutable: *is_mutable,
            },
            ParamDecl::Patterned => ParamDeclV::Patterned,
        }
    }
}

impl View for NamedFieldDecl {
    type V = NamedFieldV;

    open spec fn view(&self) -> NamedFieldV {
        NamedFieldV {
            name: self.name@,
            field_type: self.field_type@,
            visibility: self.visibility,
        }
    }
}

impl View for PosFieldDecl {
    type V = PosFieldV;

    open spec fn view(&self) -> PosFieldV {
        PosFieldV { field_type: self.field_type@, visibility: self.visibility }
    }
}

impl View for FieldsDecl {
    type V = FieldsDeclV;

    open spec fn view(&self) -> FieldsDeclV {
        match self {
            FieldsDecl::Named(fs) => FieldsDeclV::Named(
                fs@.map_values(|f: NamedFieldDecl| f@),
            ),
            FieldsDecl::Positional(fs) => FieldsDeclV::Positional(
                fs@.map_values(|f: PosFieldDecl| f@),
            ),
            FieldsDecl::Unit => FieldsDeclV::Unit,
        }
    }
}

impl View for MemberDecl {
    type V = MemberDeclV;

    open spec fn view(&self) -> MemberDeclV {
        match self {
            MemberDecl::Method(n) => MemberDeclV::Method(n@),
            MemberDecl::OtherMember => MemberDeclV::OtherMember,
        }
    }
}

impl View for FnDecl {
    type V = FnDeclV;

    open spec fn view(&self) -> FnDeclV {
        FnDeclV {
            name: self.name@,
            visibility: self.visibility,
            params: self.params@.map_values(|p: ParamDecl| p@),
            return_type: match self.return_type {
                Some(t) => Some(t@),
                None => None,
            },
            attributes: crate::records::strings_view(self.attributes@),
            is_async: self.is_async,
            is_unsafe: self.is_unsafe,
        }
    }
}

impl View for StructDecl {
    type V = StructDeclV;

    open spec fn view(&self) -> StructDeclV {
        StructDeclV {
            name: self.name@,
            visibility: self.visibility,
            fields: self.fields@,
            attributes: crate::records::strings_view(self.attributes@),
        }
    }
}

impl View for TraitDecl {
    type V = TraitDeclV;

    open spec fn view(&self) -> TraitDeclV {
        TraitDeclV {
            name: self.name@,
            visibility: self.visibility,
            members: self.members@.map_values(|m: MemberDecl| m@),
            attributes: crate::records::strings_view(self.attributes@),
        }
    }
}

impl View for ImplDecl {
    type V = ImplDeclV;

    open spec fn view(&self) -> ImplDeclV {
        ImplDeclV {
            target_type: self.target_type@,
            trait_name: match self.trait_name {
                Some(t) => Some(t@),
                None => None,
            },
            members: self.members@.map_values(|m: MemberDecl| m@),
        }
    }
}

impl View for ItemKind {
    type V = ItemKindV;

    open spec fn view(&self) -> ItemKindV {
        match self {
            ItemKind::Function(d) => ItemKindV::Function(d@),
            ItemKind::Structure(d) => ItemKindV::Structure(d@),
            ItemKind::Interface(d) => ItemKindV::Interface(d@),
            ItemKind::ImplBlock(d) => ItemKindV::ImplBlock(d@),
            ItemKind::Import(u) => ItemKindV::Import(u@),
            ItemKind::OtherItem => ItemKindV::OtherItem,
        }
    }
}

/// The mathematical value of one tree node, children included.
pub open spec fn node_view(n: ItemNode) -> ItemNodeV
    decreases n,
{
    ItemNodeV { kind: n.kind@, children: nodes_view(n.children@) }
}

/// The mathematical values of a sequence of tree nodes.
pub open spec fn nodes_view(s: Seq<ItemNode>) -> Seq<ItemNodeV>
    decreases s,
{
    if s.len() == 0 {
        Seq::empty()
    } else {
        seq![node_view(s[0])] + nodes_view(s.drop_first())
    }
}

/// `nodes_view` maps the node sequence elementwise.
pub proof fn lemma_nodes_view_elts(s: Seq<ItemNode>)
    ensures
        nodes_view(s).len() == s.len(),
        forall|i: int| 0 <= i < s.len() ==> nodes_view(s)[i] == node_view(s[i]),
    decreases s,
{
    if s.len() > 0 {
        lemma_nodes_view_elts(s.drop_first());
        assert(forall|i: int|
            0 < i < s.len() ==> nodes_view(s)[i] == nodes_view(s.drop_first())[i - 1]);
        assert(forall|i: int| 0 < i < s.len() ==> s.drop_first()[i - 1] == s[i]);
    }
}

} // verus!
