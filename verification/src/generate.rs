//! The behavior generator: for each variant the match arm that formats it and
//! the match arm that yields its nested cause, and the functions and the
//! expansion that are assembled from the arms.

use crate::chain::ChainNode;
use crate::parse::{
    describe, ErrorVariant, ErrorVariantView, GenerationError, GenerationErrorKind, Span,
    VariantItem, VariantItemView,
};
use crate::shape::{shape_of, Tail};
use crate::text::{clone_opt_text, clone_texts, opt_text, texts};
use vstd::prelude::*;

verus! {

/// The left side of a match arm: the guard, if the variant has one, the
/// variant's name and the names of its fields, which the arm binds.
#[derive(Debug, Clone)]
pub struct ArmPattern {
    pub cfg: Option<String>,
    pub name: String,
    pub fields: Vec<String>,
    pub span: Span,
}

/// The texts of the left side of a match arm.
pub struct ArmPatternView {
    pub cfg: Option<Seq<char>>,
    pub name: Seq<char>,
    pub fields: Seq<Seq<char>>,
    pub span: Span,
}

impl View for ArmPattern {
    type V = ArmPatternView;

    open spec fn view(&self) -> ArmPatternView {
        ArmPatternView {
            cfg: opt_text(self.cfg),
            name: self.name@,
            fields: texts(self.fields@),
            span: self.span,
        }
    }
}

/// The arm that formats one variant: it appends the main line, made of the
/// layer and the display template and, where `with_location` is set, the call
/// site; then comes the tail.
#[derive(Debug, Clone)]
pub struct DebugMatchArm {
    pub pattern: ArmPattern,
    pub display: String,
    pub with_location: bool,
    pub tail: Tail,
}

/// The texts and choices of a formatting arm.
pub struct DebugMatchArmView {
    pub pattern: ArmPatternView,
    pub display: Seq<char>,
    pub with_location: bool,
    pub tail: Tail,
}

impl View for DebugMatchArm {
    type V = DebugMatchArmView;

    open spec fn view(&self) -> DebugMatchArmView {
        DebugMatchArmView {
            pattern: self.pattern@,
            display: self.display@,
            with_location: self.with_location,
            tail: self.tail,
        }
    }
}

/// The arm that yields the nested cause of one variant: the field `source`
/// where `yields_source` is set, nothing else.
#[derive(Debug, Clone)]
pub struct NextMatchArm {
    pub pattern: ArmPattern,
    pub yields_source: bool,
}

/// The texts and the choice of a traversal arm.
pub struct NextMatchArmView {
    pub pattern: ArmPatternView,
    pub yields_source: bool,
}

impl View for NextMatchArm {
    type V = NextMatchArmView;

    open spec fn view(&self) -> NextMatchArmView {
        NextMatchArmView { pattern: self.pattern@, yields_source: self.yields_source }
    }
}

/// The function that formats a value of the enum: a match with one arm for
/// each variant.
#[derive(Debug, Clone)]
pub struct DebugFmtImpl {
    pub enum_name: String,
    pub arms: Vec<DebugMatchArm>,
}

/// The name of the enum and the views of the formatting arms.
pub struct DebugFmtImplView {
    pub enum_name: Seq<char>,
    pub arms: Seq<DebugMatchArmView>,
}

impl View for DebugFmtImpl {
    type V = DebugFmtImplView;

    open spec fn view(&self) -> DebugFmtImplView {
        DebugFmtImplView {
            enum_name: self.enum_name@,
            arms: Seq::new(self.arms@.len(), |i: int| self.arms@[i]@),
        }
    }
}

/// The function that yields the nested cause of a value of the enum: a match
/// with one arm for each variant.
#[derive(Debug, Clone)]
pub struct NextImpl {
    pub enum_name: String,
    pub arms: Vec<NextMatchArm>,
}

/// The name of the enum and the views of the traversal arms.
pub struct NextImplView {
    pub enum_name: Seq<char>,
    pub arms: Seq<NextMatchArmView>,
}

impl View for NextImpl {
    type V = NextImplView;

    open spec fn view(&self) -> NextImplView {
        NextImplView {
            enum_name: self.enum_name@,
            arms: Seq::new(self.arms@.len(), |i: int| self.arms@[i]@),
        }
    }
}

/// The default rendering of the enum: the trace from layer `first_layer`,
/// its lines joined by `separator`.
#[derive(Debug, Clone)]
pub struct DebugImpl {
    pub enum_name: String,
    pub first_layer: usize,
    pub separator: String,
}

/// The texts of the default rendering.
pub struct DebugImplView {
    pub enum_name: Seq<char>,
    pub first_layer: usize,
    pub separator: Seq<char>,
}

impl View for DebugImpl {
    type V = DebugImplView;

    open spec fn view(&self) -> DebugImplView {
        DebugImplView {
            enum_name: self.enum_name@,
            first_layer: self.first_layer,
            separator: self.separator@,
        }
    }
}

/// A parsed enum: its name, its variants in order, and the item as written.
#[derive(Debug, Clone)]
pub struct EnumItem {
    pub ident: String,
    pub variants: Vec<VariantItem>,
    pub tokens: String,
}

/// The texts of a parsed enum.
pub struct EnumItemView {
    pub ident: Seq<char>,
    pub variants: Seq<VariantItemView>,
    pub tokens: Seq<char>,
}

impl View for EnumItem {
    type V = EnumItemView;

    open spec fn view(&self) -> EnumItemView {
        EnumItemView {
            ident: self.ident@,
            variants: Seq::new(self.variants@.len(), |i: int| self.variants@[i]@),
            tokens: self.tokens@,
        }
    }
}

/// What the attribute puts in place of the enum: the attribute's arguments
/// and the enum, both as written, then the two functions of the chain
/// protocol and the default rendering.
#[derive(Debug, Clone)]
pub struct Expansion {
    pub args: String,
    pub input: String,
    pub debug_fmt: DebugFmtImpl,
    pub next: NextImpl,
    pub debug: DebugImpl,
}

/// The texts and views of the parts of an expansion.
pub struct ExpansionView {
    pub args: Seq<char>,
    pub input: Seq<char>,
    pub debug_fmt: DebugFmtImplView,
    pub next: NextImplView,
    pub debug: DebugImplView,
}

impl View for Expansion {
    type V = ExpansionView;

    open spec fn view(&self) -> ExpansionView {
        ExpansionView {
            args: self.args@,
            input: self.input@,
            debug_fmt: self.debug_fmt@,
            next: self.next@,
            debug: self.debug@,
        }
    }
}

/// The left side of the arms of a variant.
pub open spec fn pattern_of(v: ErrorVariantView) -> ArmPatternView {
    ArmPatternView { cfg: v.cfg_attr, name: v.name, fields: v.fields, span: v.span }
}

/// The arm that formats a variant: the call site is shown if and only if the
/// variant has one, and the tail is that of the variant's shape.
pub open spec fn debug_arm(v: ErrorVariantView) -> DebugMatchArmView {
    DebugMatchArmView {
        pattern: pattern_of(v),
        display: v.display,
        with_location: v.has_location,
        tail: shape_of(v.has_location, v.has_source, v.has_external_cause).tail(),
    }
}

/// The arm that yields the nested cause of a variant: it yields the field
/// `source` if and only if the variant has one.
pub open spec fn next_arm(v: ErrorVariantView) -> NextMatchArmView {
    NextMatchArmView { pattern: pattern_of(v), yields_source: v.has_source }
}

/// The views of a list of descriptors.
pub open spec fn variant_views(variants: Seq<ErrorVariant>) -> Seq<ErrorVariantView> {
    Seq::new(variants.len(), |i: int| variants[i]@)
}

/// The function that formats the enum named `enum_name`.
pub open spec fn debug_fmt_impl(enum_name: Seq<char>, variants: Seq<ErrorVariantView>) -> DebugFmtImplView {
    DebugFmtImplView {
        enum_name,
        arms: Seq::new(variants.len(), |i: int| debug_arm(variants[i])),
    }
}

/// The function that yields the nested cause for the enum named `enum_name`.
pub open spec fn next_impl(enum_name: Seq<char>, variants: Seq<ErrorVariantView>) -> NextImplView {
    NextImplView { enum_name, arms: Seq::new(variants.len(), |i: int| next_arm(variants[i])) }
}

/// The default rendering of the enum named `enum_name`: the trace from layer
/// 0, its lines joined by a line break.
pub open spec fn debug_impl(enum_name: Seq<char>) -> DebugImplView {
    DebugImplView { enum_name, first_layer: 0, separator: seq!['\n'] }
}

/// The defect of the first variant, in order, that has one.
pub open spec fn first_defect(variants: Seq<VariantItemView>) -> Option<GenerationError>
    decreases variants.len(),
{
    if variants.len() == 0 {
        None
    } else {
        match first_defect(variants.drop_last()) {
            Some(e) => Some(e),
            None => match describe(variants.last()) {
                Ok(_) => None,
                Err(e) => Some(e),
            },
        }
    }
}

/// The descriptors of the variants, where each of them has one.
pub open spec fn descriptors(variants: Seq<VariantItemView>) -> Seq<ErrorVariantView> {
    Seq::new(variants.len(), |i: int| describe(variants[i])->Ok_0)
}

/// The expansion of an enum, or the defect of the first variant that has one.
pub open spec fn expand(args: Seq<char>, input: EnumItemView) -> Result<
    ExpansionView,
    GenerationError,
> {
    match first_defect(input.variants) {
        Some(e) => Err(e),
        None => Ok(
            ExpansionView {
                args,
                input: input.tokens,
                debug_fmt: debug_fmt_impl(input.ident, descriptors(input.variants)),
                next: next_impl(input.ident, descriptors(input.variants)),
                debug: debug_impl(input.ident),
            },
        ),
    }
}

/// The view of an expansion or of the defect in its place.
pub open spec fn expanded(r: Result<Expansion, GenerationError>) -> Result<
    ExpansionView,
    GenerationError,
> {
    match r {
        Ok(x) => Ok(x@),
        Err(e) => Err(e),
    }
}

/// The left side of the arms of a variant.
fn arm_pattern(variant: &ErrorVariant) -> (pattern: ArmPattern)
    ensures
        pattern@ == pattern_of(variant@),
{
    ArmPattern {
        cfg: clone_opt_text(&variant.cfg_attr),
        name: variant.name.clone(),
        fields: clone_texts(&variant.fields),
        span: variant.span,
    }
}

/// The arm that formats `variant`.
pub fn to_debug_match_arm(variant: &ErrorVariant) -> (arm: DebugMatchArm)
    ensures
        arm@ == debug_arm(variant@),
{
    let shape = variant.shape();
    DebugMatchArm {
        pattern: arm_pattern(variant),
        display: variant.display.clone(),
        with_location: shape.is_located(),
        tail: shape.format_tail(),
    }
}

/// The arm that yields the nested cause of `variant`.
pub fn to_next_match_arm(variant: &ErrorVariant) -> (arm: NextMatchArm)
    ensures
        arm@ == next_arm(variant@),
{
    NextMatchArm {
        pattern: arm_pattern(variant),
        yields_source: variant.shape().has_chain_cause(),
    }
}

/// The function that formats the enum named `enum_name`: one arm for each of
/// `variants`, in their order.
pub fn build_debug_fmt_impl(enum_name: &String, variants: &Vec<ErrorVariant>) -> (r: DebugFmtImpl)
    ensures
        r@ == debug_fmt_impl(enum_name@, variant_views(variants@)),
{
    let mut arms: Vec<DebugMatchArm> = Vec::new();
    let mut i: usize = 0;
    while i < variants.len()
        invariant
            i <= variants@.len(),
            arms@.len() == i,
            forall|k: int| 0 <= k < i ==> #[trigger] arms@[k]@ == debug_arm(variants@[k]@),
        decreases variants@.len() - i,
    {
        arms.push(to_debug_match_arm(&variants[i]));
        i = i + 1;
    }
    let r = DebugFmtImpl { enum_name: enum_name.clone(), arms };
    assert(r@.arms =~= debug_fmt_impl(enum_name@, variant_views(variants@)).arms);
    r
}

/// The function that yields the nested cause for the enum named `enum_name`:
/// one arm for each of `variants`, in their order.
pub fn build_next_impl(enum_name: &String, variants: &Vec<ErrorVariant>) -> (r: NextImpl)
    ensures
        r@ == next_impl(enum_name@, variant_views(variants@)),
{
    let mut arms: Vec<NextMatchArm> = Vec::new();
    let mut i: usize = 0;
    while i < variants.len()
        invariant
            i <= variants@.len(),
            arms@.len() == i,
            forall|k: int| 0 <= k < i ==> #[trigger] arms@[k]@ == next_arm(variants@[k]@),
        decreases variants@.len() - i,
    {
        arms.push(to_next_match_arm(&variants[i]));
        i = i + 1;
    }
    let r = NextImpl { enum_name: enum_name.clone(), arms };
    assert(r@.arms =~= next_impl(enum_name@, variant_views(variants@)).arms);
    r
}

/// The default rendering of the enum named `enum_name`.
pub fn build_debug_impl(enum_name: &String) -> (r: DebugImpl)
    ensures
        r@ == debug_impl(enum_name@),
{
    proof {
        reveal_strlit("\n");
    }
    let separator = String::from_str("\n");
    assert(separator@ =~= seq!['\n']);
    DebugImpl { enum_name: enum_name.clone(), first_layer: 0, separator }
}

/// Expands an enum: reads the descriptor of each variant, in order, and
/// assembles the two functions of the chain protocol and the default
/// rendering. The defect of the first variant that has one ends the
/// expansion.
pub fn stack_trace_debug2(args: String, input: &EnumItem) -> (r: Result<Expansion, GenerationError>)
    ensures
        expanded(r) == expand(args@, input@),
{
    let ghost items = input@.variants;
    let mut variants: Vec<ErrorVariant> = Vec::new();
    let mut i: usize = 0;
    while i < input.variants.len()
        invariant
            i <= input.variants@.len(),
            items == input@.variants,
            first_defect(items.take(i as int)) is None,
            variants@.len() == i,
            forall|k: int| 0 <= k < i ==> Ok::<ErrorVariantView, GenerationError>(#[trigger] variants@[k]@) == describe(items[k]),
        decreases input.variants@.len() - i,
    {
        proof {
            assert(items.take(i + 1).drop_last() =~= items.take(i as int));
            assert(items.take(i + 1).last() == items[i as int]);
        }
        match ErrorVariant::from_enum_variant(&input.variants[i]) {
            Ok(variant) => {
                variants.push(variant);
            },
            Err(e) => {
                proof {
                    lemma_first_defect_prefix(items, i + 1);
                }
                return Err(e);
            },
        }
        i = i + 1;
    }
    assert(items.take(i as int) =~= items);
    assert(variant_views(variants@) =~= descriptors(items));
    let debug_fmt = build_debug_fmt_impl(&input.ident, &variants);
    let next = build_next_impl(&input.ident, &variants);
    let debug = build_debug_impl(&input.ident);
    Ok(Expansion { args, input: input.tokens.clone(), debug_fmt, next, debug })
}

/// A defect among the first `n` variants is the first defect of them all.
proof fn lemma_first_defect_prefix(variants: Seq<VariantItemView>, n: int)
    requires
        0 <= n <= variants.len(),
        first_defect(variants.take(n)) is Some,
    ensures
        first_defect(variants) == first_defect(variants.take(n)),
    decreases variants.len() - n,
{
    if n < variants.len() {
        assert(variants.take(n + 1).drop_last() =~= variants.take(n));
        lemma_first_defect_prefix(variants, n + 1);
    } else {
        assert(variants.take(n) =~= variants);
    }
}

/// The two arms of a variant agree: the formatting arm goes on to the trace of
/// the nested cause if and only if the traversal arm yields it, and it shows
/// the external cause only where the traversal arm yields nothing.
pub proof fn lemma_arms_agree(v: ErrorVariantView)
    ensures
        debug_arm(v).pattern == next_arm(v).pattern,
        debug_arm(v).tail == Tail::NestedTrace <==> next_arm(v).yields_source,
        debug_arm(v).tail == Tail::ExternalLine <==> !v.has_source && v.has_external_cause,
        debug_arm(v).tail == Tail::Nothing <==> !v.has_source && !v.has_external_cause,
{
}

/// Whether `node` has the fields of the variant `v`: a call site, a nested
/// cause and an external cause, each if and only if the variant has the field.
pub open spec fn instance_of(node: ChainNode, v: ErrorVariantView) -> bool {
    &&& node.location is Some == v.has_location
    &&& node.source is Some == v.has_source
    &&& node.error is Some == v.has_external_cause
}

/// The arms of a variant describe what a value of the variant does: the main
/// line ends with the call site where the formatting arm says so, the value's
/// own lines are two where the tail is the line of the external cause and one
/// otherwise, and traversal yields a nested cause where the traversal arm
/// yields the source.
pub proof fn lemma_arms_describe_instances(v: ErrorVariantView, node: ChainNode, layer: nat)
    requires
        instance_of(node, v),
    ensures
        node.shape() == shape_of(v.has_location, v.has_source, v.has_external_cause),
        debug_arm(v).with_location == node.shape().located(),
        debug_arm(v).tail == node.shape().tail(),
        debug_arm(v).tail == Tail::ExternalLine <==> node.own_lines(layer).len() == 2,
        debug_arm(v).tail != Tail::ExternalLine <==> node.own_lines(layer).len() == 1,
        next_arm(v).yields_source == node.shape().links_source(),
        next_arm(v).yields_source == (node.source is Some),
{
}

/// An expansion has one formatting arm and one traversal arm for each variant
/// of the enum, in the order of the variants.
pub proof fn lemma_expansion_covers(args: Seq<char>, input: EnumItemView)
    ensures
        expand(args, input) matches Ok(x) ==> {
            &&& x.debug_fmt.arms.len() == input.variants.len()
            &&& x.next.arms.len() == input.variants.len()
            &&& forall|i: int|
                0 <= i < input.variants.len() ==> describe(#[trigger] input.variants[i]) is Ok
            &&& forall|i: int|
                0 <= i < input.variants.len() ==> (#[trigger] x.debug_fmt.arms[i]).pattern.name
                    == input.variants[i].ident && x.next.arms[i].pattern.name
                    == input.variants[i].ident
        },
{
    if expand(args, input) is Ok {
        lemma_no_defect(input.variants);
    }
}

/// Where no variant has a defect, each has a descriptor.
proof fn lemma_no_defect(variants: Seq<VariantItemView>)
    requires
        first_defect(variants) is None,
    ensures
        forall|i: int| 0 <= i < variants.len() ==> describe(#[trigger] variants[i]) is Ok,
    decreases variants.len(),
{
    if variants.len() > 0 {
        lemma_no_defect(variants.drop_last());
        assert forall|i: int| 0 <= i < variants.len() implies describe(
            #[trigger] variants[i],
        ) is Ok by {
            if i < variants.len() - 1 {
                assert(variants.drop_last()[i] == variants[i]);
            }
        }
    }
}

/// What the attribute hands back: the expansion, or an error that the
/// compiler reports at the span of the variant with the defect.
#[derive(Debug, Clone)]
pub enum MacroOutput {
    Expansion(Expansion),
    CompileError { message: String, span: Span },
}

/// The message that reports a defect.
pub open spec fn defect_message(kind: GenerationErrorKind) -> Seq<char> {
    match kind {
        GenerationErrorKind::UnrecognizedAnnotation => "unrecognized repr"@,
        GenerationErrorKind::UnnamedField => "Each field should have a name"@,
        GenerationErrorKind::MissingDisplay => "Each error should contains a display attribute"@,
    }
}

/// The entry point of the attribute: the expansion of the enum, or the
/// compile error for the first defect.
pub fn stack_trace_debug(args: String, input: &EnumItem) -> (out: MacroOutput)
    ensures
        match expand(args@, input@) {
            Ok(x) => out matches MacroOutput::Expansion(e) && e@ == x,
            Err(defect) => out matches MacroOutput::CompileError { message, span } && message@
                == defect_message(defect.kind) && span == defect.span,
        },
{
    match stack_trace_debug2(args, input) {
        Ok(expansion) => MacroOutput::Expansion(expansion),
        Err(defect) => {
            let message = match defect.kind {
                GenerationErrorKind::UnrecognizedAnnotation => "unrecognized repr",
                GenerationErrorKind::UnnamedField => "Each field should have a name",
                GenerationErrorKind::MissingDisplay => "Each error should contains a display attribute",
            };
            MacroOutput::CompileError { message: String::from_str(message), span: defect.span }
        },
    }
}

} // verus!
