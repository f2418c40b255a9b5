//! The flat data model of the analysis report: one normalized record per
//! declaration, plus the report object that collects them.
//!
//! Every record is an immutable value; the whole report is built once per
//! analyzed source text and never mutated afterwards.

use vstd::prelude::*;

verus! {

/// One function parameter, as it appears in the report.
pub struct ParsedParameter {
    pub name: String,
    pub param_type: String,
    pub is_mutable: bool,
}

/// One callable declaration.
pub struct ParsedFunction {
    pub name: String,
    pub visibility: String,
    pub parameters: Vec<ParsedParameter>,
    pub return_type: Option<String>,
    pub attributes: Vec<String>,
    pub is_async: bool,
    pub is_unsafe: bool,
    pub line_start: usize,
    pub line_end: usize,
}

/// One field of a data-structure declaration.
pub struct ParsedField {
    pub name: String,
    pub field_type: String,
    pub visibility: String,
}

/// One data-structure declaration.
pub struct ParsedStruct {
    pub name: String,
    pub visibility: String,
    pub fields: Vec<ParsedField>,
    pub attributes: Vec<String>,
    pub line_start: usize,
    pub line_end: usize,
}

/// One interface-like (trait) declaration.
pub struct ParsedTrait {
    pub name: String,
    pub visibility: String,
    pub methods: Vec<String>,
    pub attributes: Vec<String>,
    pub line_start: usize,
    pub line_end: usize,
}

/// One implementation block.
pub struct ParsedImpl {
    pub target_type: String,
    pub trait_name: Option<String>,
    pub methods: Vec<String>,
    pub line_start: usize,
    pub line_end: usize,
}

/// One unsafe expression block. Reserved: the current walker never emits one,
/// but the report schema keeps the list as an extension point.
pub struct ParsedUnsafeBlock {
    pub line_start: usize,
    pub line_end: usize,
    pub context: String,
}

/// The full output of one analysis call.
pub struct ParseResult {
    pub functions: Vec<ParsedFunction>,
    pub structs: Vec<ParsedStruct>,
    pub traits: Vec<ParsedTrait>,
    pub impl_blocks: Vec<ParsedImpl>,
    pub unsafe_blocks: Vec<ParsedUnsafeBlock>,
    pub attributes: Vec<String>,
    pub uses: Vec<String>,
    pub contract_type: String,
    pub errors: Vec<String>,
}

/// Mathematical value of a [`ParsedParameter`].
#[verifier::ext_equal]
pub struct ParameterV {
    pub name: Seq<char>,
    pub param_type: Seq<char>,
    pub is_mutable: bool,
}

/// Mathematical value of a [`ParsedFunction`].
#[verifier::ext_equal]
pub struct FunctionV {
    pub name: Seq<char>,
    pub visibility: Seq<char>,
    pub parameters: Seq<ParameterV>,
    pub return_type: Option<Seq<char>>,
    pub attributes: Seq<Seq<char>>,
    pub is_async: bool,
    pub is_unsafe: bool,
    pub line_start: int,
    pub line_end: int,
}

/// Mathematical value of a [`ParsedField`].
#[verifier::ext_equal]
pub struct FieldV {
    pub name: Seq<char>,
    pub field_type: Seq<char>,
    pub visibility: Seq<char>,
}

/// Mathematical value of a [`ParsedStruct`].
#[verifier::ext_equal]
pub struct StructV {
    pub name: Seq<char>,
    pub visibility: Seq<char>,
    pub fields: Seq<FieldV>,
    pub attributes: Seq<Seq<char>>,
    pub line_start: int,
    pub line_end: int,
}

/// Mathematical value of a [`ParsedTrait`].
#[verifier::ext_equal]
pub struct TraitV {
    pub name: Seq<char>,
    pub visibility: Seq<char>,
    pub methods: Seq<Seq<char>>,
    pub attributes: Seq<Seq<char>>,
    pub line_start: int,
    pub line_end: int,
}

/// Mathematical value of a [`ParsedImpl`].
#[verifier::ext_equal]
pub struct ImplV {
    pub target_type: Seq<char>,
    pub trait_name: Option<Seq<char>>,
    pub methods: Seq<Seq<char>>,
    pub line_start: int,
    pub line_end: int,
}

/// Mathematical value of a [`ParsedUnsafeBlock`].
#[verifier::ext_equal]
pub struct UnsafeBlockV {
    pub line_start: int,
    pub line_end: int,
    pub context: Seq<char>,
}

/// Mathematical value of a [`ParseResult`].
#[verifier::ext_equal]
pub struct ReportV {
    pub functions: Seq<FunctionV>,
    pub structs: Seq<StructV>,
    pub traits: Seq<TraitV>,
    pub impl_blocks: Seq<ImplV>,
    pub unsafe_blocks: Seq<UnsafeBlockV>,
    pub attributes: Seq<Seq<char>>,
    pub uses: Seq<Seq<char>>,
    pub contract_type: Seq<char>,
    pub errors: Seq<Seq<char>>,
}

/// The views of a sequence of strings.
pub open spec fn strings_view(v: Seq<String>) -> Seq<Seq<char>> {
    v.map_values(|s: String| s@)
}

impl View for ParsedParameter {
    type V = ParameterV;

    open spec fn view(&self) -> ParameterV {
        ParameterV { name: self.name@, param_type: self.param_type@, is_mutable: self.is_mutable }
    }
}

impl View for ParsedFunction {
    type V = FunctionV;

    open spec fn view(&self) -> FunctionV {
        FunctionV {
            name: self.name@,
            visibility: self.visibility@,
            parameters: self.parameters@.map_values(|p: ParsedParameter| p@),
            return_type: match self.return_type {
                Some(t) => Some(t@),
                None => None,
            },
            attributes: strings_view(self.attributes@),
            is_async: self.is_async,
            is_unsafe: self.is_unsafe,
            line_start: self.line_start as int,
            line_end: self.line_end as int,
        }
    }
}

impl View for ParsedField {
    type V = FieldV;

    open spec fn view(&self) -> FieldV {
        FieldV { name: self.name@, field_type: self.field_type@, visibility: self.visibility@ }
    }
}

impl View for ParsedStruct {
    type V = StructV;

    open spec fn view(&self) -> StructV {
        StructV {
            name: self.name@,
            visibility: self.visibility@,
            fields: self.fields@.map_values(|f: ParsedField| f@),
            attributes: strings_view(self.attributes@),
            line_start: self.line_start as int,
            line_end: self.line_end as int,
        }
    }
}

impl View for ParsedTrait {
    type V = TraitV;

    open spec fn view(&self) -> TraitV {
        TraitV {
            name: self.name@,
            visibility: self.visibility@,
            methods: strings_view(self.methods@),
            attributes: strings_view(self.attributes@),
            line_start: self.line_start as int,
            line_end: self.line_end as int,
        }
    }
}

impl View for ParsedImpl {
    type V = ImplV;

    open spec fn view(&self) -> ImplV {
        ImplV {
            target_type: self.target_type@,
            trait_name: match self.trait_name {
                Some(t) => Some(t@),
                None => None,
            },
            methods: strings_view(self.methods@),
            line_start: self.line_start as int,
            line_end: self.line_end as int,
        }
    }
}

impl View for ParsedUnsafeBlock {
    type V = UnsafeBlockV;

    open spec fn view(&self) -> UnsafeBlockV {
        UnsafeBlockV {
            line_start: self.line_start as int,
            line_end: self.line_end as int,
            context: self.context@,
        }
    }
}

impl View for ParseResult {
    type V = ReportV;

    open spec fn view(&self) -> ReportV {
        ReportV {
            functions: self.functions@.map_values(|f: ParsedFunction| f@),
            structs: self.structs@.map_values(|s: ParsedStruct| s@),
            traits: self.traits@.map_values(|t: ParsedTrait| t@),
            impl_blocks: self.impl_blocks@.map_values(|i: ParsedImpl| i@),
            unsafe_blocks: self.unsafe_blocks@.map_values(|u: ParsedUnsafeBlock| u@),
            attributes: strings_view(self.attributes@),
            uses: strings_view(self.uses@),
            contract_type: self.contract_type@,
            errors: strings_view(self.errors@),
        }
    }
}

} // verus!
