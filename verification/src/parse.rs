//! Variant descriptors: what the generator knows of one variant of an error
//! enum, and how a descriptor is read off a parsed variant.

use crate::text::{is_word, opt_text, texts};
use vstd::prelude::*;

verus! {

/// A position in source text.
#[derive(Debug, Clone, Copy, PartialEq, Eq, Structural)]
pub struct LineColumn {
    pub line: usize,
    pub column: usize,
}

/// A region of source text, kept for diagnostics.
#[derive(Debug, Clone, Copy, PartialEq, Eq, Structural)]
pub struct Span {
    pub start: LineColumn,
    pub end: LineColumn,
}

/// One entry of an attribute's argument list: a path, and the tokens in
/// parentheses behind it, if there are any.
#[derive(Debug, Clone)]
pub struct MetaItem {
    pub path: String,
    pub content: Option<String>,
}

/// The texts of an entry.
pub struct MetaItemView {
    pub path: Seq<char>,
    pub content: Option<Seq<char>>,
}

/// An attribute on a variant.
#[derive(Debug, Clone)]
pub struct AttributeItem {
    /// The attribute's path, where it is a single identifier.
    pub path: String,
    /// The entries of its argument list, where it has one in parentheses.
    pub nested: Option<Vec<MetaItem>>,
    /// The attribute as written.
    pub tokens: String,
}

/// The texts of an attribute.
pub struct AttributeItemView {
    pub path: Seq<char>,
    pub nested: Option<Seq<MetaItemView>>,
    pub tokens: Seq<char>,
}

/// A parsed variant of an enum: its name, the names of its fields in order
/// (`None` for a field without a name), its attributes in order, its span.
#[derive(Debug, Clone)]
pub struct VariantItem {
    pub ident: String,
    pub fields: Vec<Option<String>>,
    pub attrs: Vec<AttributeItem>,
    pub span: Span,
}

/// The texts of a parsed variant.
pub struct VariantItemView {
    pub ident: Seq<char>,
    pub fields: Seq<Option<Seq<char>>>,
    pub attrs: Seq<AttributeItemView>,
    pub span: Span,
}

/// Why no behavior can be generated for a variant.
#[derive(Debug, Clone, Copy, PartialEq, Eq, Structural)]
pub enum GenerationErrorKind {
    /// A `snafu` attribute holds something other than `display(..)`.
    UnrecognizedAnnotation,
    /// A field has no name.
    UnnamedField,
    /// The variant declares no display template.
    MissingDisplay,
}

/// A defect in the input of the generator, with the span of the variant that
/// has it.
#[derive(Debug, Clone, Copy, PartialEq, Eq, Structural)]
pub struct GenerationError {
    pub kind: GenerationErrorKind,
    pub span: Span,
}

/// The descriptor of one variant.
///
/// The three flags say whether a field is named `location`, `source` or
/// `error`: these names are reserved for the call site, the nested cause and
/// the external cause.
#[derive(Debug, Clone)]
pub struct ErrorVariant {
    pub name: String,
    pub fields: Vec<String>,
    pub has_location: bool,
    pub has_source: bool,
    pub has_external_cause: bool,
    /// The display template, as written.
    pub display: String,
    pub span: Span,
    /// The conditional-compilation attribute on the variant, as written.
    pub cfg_attr: Option<String>,
}

/// The texts and flags of a descriptor.
pub struct ErrorVariantView {
    pub name: Seq<char>,
    pub fields: Seq<Seq<char>>,
    pub has_location: bool,
    pub has_source: bool,
    pub has_external_cause: bool,
    pub display: Seq<char>,
    pub span: Span,
    pub cfg_attr: Option<Seq<char>>,
}

impl View for MetaItem {
    type V = MetaItemView;

    open spec fn view(&self) -> MetaItemView {
        MetaItemView { path: self.path@, content: opt_text(self.content) }
    }
}

impl View for AttributeItem {
    type V = AttributeItemView;

    open spec fn view(&self) -> AttributeItemView {
        AttributeItemView {
            path: self.path@,
            nested: match self.nested {
                Some(metas) => Some(Seq::new(metas@.len(), |j: int| metas@[j]@)),
                None => None,
            },
            tokens: self.tokens@,
        }
    }
}

impl View for VariantItem {
    type V = VariantItemView;

    open spec fn view(&self) -> VariantItemView {
        VariantItemView {
            ident: self.ident@,
            fields: Seq::new(self.fields@.len(), |i: int| opt_text(self.fields@[i])),
            attrs: Seq::new(self.attrs@.len(), |i: int| self.attrs@[i]@),
            span: self.span,
        }
    }
}

impl View for ErrorVariant {
    type V = ErrorVariantView;

    open spec fn view(&self) -> ErrorVariantView {
        ErrorVariantView {
            name: self.name@,
            fields: texts(self.fields@),
            has_location: self.has_location,
            has_source: self.has_source,
            has_external_cause: self.has_external_cause,
            display: self.display@,
            span: self.span,
            cfg_attr: opt_text(self.cfg_attr),
        }
    }
}

/// Whether an entry declares a display template: `display(..)`.
pub open spec fn meta_is_display(m: MetaItemView) -> bool {
    m.path == "display"@ && m.content is Some
}

/// Whether an attribute is a `snafu` attribute that the generator refuses:
/// one without an argument list in parentheses, or with an entry that is no
/// `display(..)`.
pub open spec fn attr_is_rejected(a: AttributeItemView) -> bool {
    a.path == "snafu"@ && match a.nested {
        None => true,
        Some(metas) => exists|j: int| 0 <= j < metas.len() && !meta_is_display(#[trigger] metas[j]),
    }
}

/// Whether an attribute is a `snafu` attribute with at least one entry.
pub open spec fn attr_has_entries(a: AttributeItemView) -> bool {
    a.path == "snafu"@ && a.nested is Some && a.nested.unwrap().len() > 0
}

/// The display template that the attributes declare: the content of the last
/// entry of the last `snafu` attribute that has entries.
pub open spec fn last_display(attrs: Seq<AttributeItemView>) -> Option<Seq<char>>
    decreases attrs.len(),
{
    if attrs.len() == 0 {
        None
    } else if attr_has_entries(attrs.last()) {
        attrs.last().nested.unwrap().last().content
    } else {
        last_display(attrs.drop_last())
    }
}

/// The last `cfg` attribute among the attributes, as written.
pub open spec fn last_cfg(attrs: Seq<AttributeItemView>) -> Option<Seq<char>>
    decreases attrs.len(),
{
    if attrs.len() == 0 {
        None
    } else if attrs.last().path == "cfg"@ {
        Some(attrs.last().tokens)
    } else {
        last_cfg(attrs.drop_last())
    }
}

/// Whether one of the fields is named `word`.
pub open spec fn names_field(fields: Seq<Option<Seq<char>>>, word: Seq<char>) -> bool {
    exists|i: int| 0 <= i < fields.len() && #[trigger] fields[i] == Some(word)
}

/// Whether one of the attributes is refused.
pub open spec fn any_rejected(attrs: Seq<AttributeItemView>) -> bool {
    exists|i: int| 0 <= i < attrs.len() && attr_is_rejected(#[trigger] attrs[i])
}

/// Whether one of the fields has no name.
pub open spec fn any_unnamed(fields: Seq<Option<Seq<char>>>) -> bool {
    exists|i: int| 0 <= i < fields.len() && #[trigger] fields[i] is None
}

/// The descriptor of a parsed variant, or the defect that forbids one.
///
/// A refused attribute is reported first, then a field without a name, then
/// a missing display template.
pub open spec fn describe(v: VariantItemView) -> Result<ErrorVariantView, GenerationError> {
    if any_rejected(v.attrs) {
        Err(GenerationError { kind: GenerationErrorKind::UnrecognizedAnnotation, span: v.span })
    } else if any_unnamed(v.fields) {
        Err(GenerationError { kind: GenerationErrorKind::UnnamedField, span: v.span })
    } else if last_display(v.attrs) is None {
        Err(GenerationError { kind: GenerationErrorKind::MissingDisplay, span: v.span })
    } else {
        Ok(
            ErrorVariantView {
                name: v.ident,
                fields: Seq::new(v.fields.len(), |i: int| v.fields[i].unwrap()),
                has_location: names_field(v.fields, "location"@),
                has_source: names_field(v.fields, "source"@),
                has_external_cause: names_field(v.fields, "error"@),
                display: last_display(v.attrs).unwrap(),
                span: v.span,
                cfg_attr: last_cfg(v.attrs),
            },
        )
    }
}

/// The view of a descriptor or of the defect in its place.
pub open spec fn described(r: Result<ErrorVariant, GenerationError>) -> Result<
    ErrorVariantView,
    GenerationError,
> {
    match r {
        Ok(v) => Ok(v@),
        Err(e) => Err(e),
    }
}

impl ErrorVariantView {
    /// Whether the flags say what the field names say: a flag is set if and
    /// only if a field has the reserved name.
    pub open spec fn wf(self) -> bool {
        &&& self.has_location == self.fields.contains("location"@)
        &&& self.has_source == self.fields.contains("source"@)
        &&& self.has_external_cause == self.fields.contains("error"@)
    }
}

/// Whether one of the first `i + 1` fields is named `word`, from the first
/// `i` fields and the field at `i`.
proof fn lemma_names_field_step(fields: Seq<Option<Seq<char>>>, i: int, word: Seq<char>)
    requires
        0 <= i < fields.len(),
    ensures
        names_field(fields.take(i + 1), word) == (names_field(fields.take(i), word) || fields[i]
            == Some(word)),
{
    let shorter = fields.take(i);
    let longer = fields.take(i + 1);
    if names_field(shorter, word) {
        let k = choose|k: int| 0 <= k < shorter.len() && #[trigger] shorter[k] == Some(word);
        assert(longer[k] == Some(word));
    }
    if fields[i] == Some(word) {
        assert(longer[i] == Some(word));
    }
    if names_field(longer, word) {
        let k = choose|k: int| 0 <= k < longer.len() && #[trigger] longer[k] == Some(word);
        if k < i {
            assert(shorter[k] == Some(word));
        }
    }
}

/// Whether one of the first `i + 1` fields has no name, from the first `i`
/// fields and the field at `i`.
proof fn lemma_any_unnamed_step(fields: Seq<Option<Seq<char>>>, i: int)
    requires
        0 <= i < fields.len(),
    ensures
        any_unnamed(fields.take(i + 1)) == (any_unnamed(fields.take(i)) || fields[i] is None),
{
    let shorter = fields.take(i);
    let longer = fields.take(i + 1);
    if any_unnamed(shorter) {
        let k = choose|k: int| 0 <= k < shorter.len() && #[trigger] shorter[k] is None;
        assert(longer[k] is None);
    }
    if fields[i] is None {
        assert(longer[i] is None);
    }
    if any_unnamed(longer) {
        let k = choose|k: int| 0 <= k < longer.len() && #[trigger] longer[k] is None;
        if k < i {
            assert(shorter[k] is None);
        }
    }
}

/// Whether one of the first `i + 1` attributes is refused, from the first `i`
/// attributes and the attribute at `i`.
proof fn lemma_any_rejected_step(attrs: Seq<AttributeItemView>, i: int)
    requires
        0 <= i < attrs.len(),
    ensures
        any_rejected(attrs.take(i + 1)) == (any_rejected(attrs.take(i)) || attr_is_rejected(
            attrs[i],
        )),
{
    let shorter = attrs.take(i);
    let longer = attrs.take(i + 1);
    if any_rejected(shorter) {
        let k = choose|k: int| 0 <= k < shorter.len() && attr_is_rejected(#[trigger] shorter[k]);
        assert(attr_is_rejected(longer[k]));
    }
    if attr_is_rejected(attrs[i]) {
        assert(attr_is_rejected(longer[i]));
    }
    if any_rejected(longer) {
        let k = choose|k: int| 0 <= k < longer.len() && attr_is_rejected(#[trigger] longer[k]);
        if k < i {
            assert(attr_is_rejected(shorter[k]));
        }
    }
}

/// A descriptor that is read off a parsed variant is well formed.
pub proof fn lemma_describe_wf(v: VariantItemView)
    ensures
        describe(v) matches Ok(d) ==> d.wf(),
{
    if let Ok(d) = describe(v) {
        assert forall|word: Seq<char>| names_field(v.fields, word) == d.fields.contains(word) by {
            if names_field(v.fields, word) {
                let k = choose|k: int| 0 <= k < v.fields.len() && #[trigger] v.fields[k] == Some(
                    word,
                );
                assert(d.fields[k] == word);
            }
            if d.fields.contains(word) {
                let k = choose|k: int| 0 <= k < d.fields.len() && d.fields[k] == word;
                assert(v.fields[k] is Some);
                assert(v.fields[k] == Some(word));
            }
        }
    }
}

/// What the entries of one `snafu` attribute declare: `None` where an entry is
/// no `display(..)`, else the content of the last entry, if there is an entry.
fn entries_display(metas: &Vec<MetaItem>) -> (r: Option<Option<String>>)
    ensures
        r is None <==> exists|j: int| 0 <= j < metas@.len() && !meta_is_display(#[trigger] metas@[j]@),
        r matches Some(d) ==> opt_text(d) == (if metas@.len() > 0 {
            metas@.last()@.content
        } else {
            None
        }),
{
    let mut found: Option<String> = None;
    let mut j: usize = 0;
    while j < metas.len()
        invariant
            j <= metas@.len(),
            forall|k: int| 0 <= k < j ==> meta_is_display(#[trigger] metas@[k]@),
            opt_text(found) == (if j > 0 {
                metas@[j - 1]@.content
            } else {
                None
            }),
        decreases metas@.len() - j,
    {
        let meta = &metas[j];
        if !is_word(&meta.path, "display") {
            assert(!meta_is_display(metas@[j as int]@));
            return None;
        }
        match &meta.content {
            Some(content) => {
                found = Some(content.clone());
            },
            None => {
                assert(!meta_is_display(metas@[j as int]@));
                return None;
            },
        }
        j = j + 1;
    }
    Some(found)
}

impl ErrorVariant {
    /// Reads the descriptor off a parsed variant.
    ///
    /// The flags follow the reserved field names; the display template is the
    /// last one that a `snafu` attribute declares; the guard is the last `cfg`
    /// attribute. A `snafu` attribute with anything but `display(..)` in it, a
    /// field without a name, and a variant without a display template are
    /// defects, reported in this order.
    pub fn from_enum_variant(variant: &VariantItem) -> (r: Result<ErrorVariant, GenerationError>)
        ensures
            described(r) == describe(variant@),
            r matches Ok(v) ==> v@.wf(),
            r is Ok <==> !any_rejected(variant@.attrs) && !any_unnamed(variant@.fields)
                && last_display(variant@.attrs) is Some,
            r matches Err(e) ==> e.span == variant.span && (e.kind
                == GenerationErrorKind::UnrecognizedAnnotation <==> any_rejected(variant@.attrs))
                && (e.kind == GenerationErrorKind::UnnamedField <==> !any_rejected(variant@.attrs)
                && any_unnamed(variant@.fields)),
    {
        let span = variant.span;
        let ghost fields_view = variant@.fields;
        let ghost attrs_view = variant@.attrs;
        let mut has_location = false;
        let mut has_source = false;
        let mut has_external_cause = false;
        let mut unnamed = false;
        let mut fields: Vec<String> = Vec::new();
        let mut i: usize = 0;
        while i < variant.fields.len()
            invariant
                i <= variant.fields@.len(),
                fields_view == variant@.fields,
                has_location == names_field(fields_view.take(i as int), "location"@),
                has_source == names_field(fields_view.take(i as int), "source"@),
                has_external_cause == names_field(fields_view.take(i as int), "error"@),
                unnamed == any_unnamed(fields_view.take(i as int)),
                !unnamed ==> fields@.len() == i,
                !unnamed ==> forall|k: int|
                    0 <= k < i ==> Some(#[trigger] fields@[k]@) == fields_view[k],
            decreases variant.fields@.len() - i,
        {
            proof {
                lemma_names_field_step(fields_view, i as int, "location"@);
                lemma_names_field_step(fields_view, i as int, "source"@);
                lemma_names_field_step(fields_view, i as int, "error"@);
                lemma_any_unnamed_step(fields_view, i as int);
            }
            match &variant.fields[i] {
                Some(ident) => {
                    if is_word(ident, "source") {
                        has_source = true;
                    }
                    if is_word(ident, "error") {
                        has_external_cause = true;
                    }
                    if is_word(ident, "location") {
                        has_location = true;
                    }
                    if !unnamed {
                        fields.push(ident.clone());
                    }
                },
                None => {
                    unnamed = true;
                },
            }
            i = i + 1;
        }
        assert(fields_view.take(i as int) =~= fields_view);

        let mut display: Option<String> = None;
        let mut cfg_attr: Option<String> = None;
        let mut rejected = false;
        let mut a: usize = 0;
        while a < variant.attrs.len()
            invariant
                a <= variant.attrs@.len(),
                attrs_view == variant@.attrs,
                rejected == any_rejected(attrs_view.take(a as int)),
                !rejected ==> opt_text(display) == last_display(attrs_view.take(a as int)),
                opt_text(cfg_attr) == last_cfg(attrs_view.take(a as int)),
            decreases variant.attrs@.len() - a,
        {
            proof {
                lemma_any_rejected_step(attrs_view, a as int);
                assert(attrs_view.take(a + 1).drop_last() =~= attrs_view.take(a as int));
                assert(attrs_view.take(a + 1).last() == attrs_view[a as int]);
            }
            let attr = &variant.attrs[a];
            assert(attr@ == attrs_view[a as int]);
            if is_word(&attr.path, "snafu") {
                match &attr.nested {
                    None => {
                        rejected = true;
                    },
                    Some(metas) => {
                        let ghost metas_view = attr@.nested.unwrap();
                        assert(forall|j: int|
                            0 <= j < metas@.len() ==> metas@[j]@ == #[trigger] metas_view[j]);
                        match entries_display(metas) {
                            None => {
                                let ghost j = choose|j: int|
                                    0 <= j < metas@.len() && !meta_is_display(
                                        #[trigger] metas@[j]@,
                                    );
                                assert(!meta_is_display(metas_view[j]));
                                rejected = true;
                            },
                            Some(found) => {
                                assert forall|j: int| 0 <= j < metas_view.len() implies meta_is_display(
                                    #[trigger] metas_view[j],
                                ) by {
                                    assert(meta_is_display(metas@[j]@));
                                }
                                if metas.len() > 0 {
                                    display = found;
                                }
                            },
                        }
                    },
                }
            }
            if is_word(&attr.path, "cfg") {
                cfg_attr = Some(attr.tokens.clone());
            }
            a = a + 1;
        }
        assert(attrs_view.take(a as int) =~= attrs_view);

        proof {
            lemma_describe_wf(variant@);
        }
        if rejected {
            return Err(
                GenerationError { kind: GenerationErrorKind::UnrecognizedAnnotation, span },
            );
        }
        if unnamed {
            return Err(GenerationError { kind: GenerationErrorKind::UnnamedField, span });
        }
        match display {
            None => Err(GenerationError { kind: GenerationErrorKind::MissingDisplay, span }),
            Some(text) => {
                let described = ErrorVariant {
                    name: variant.ident.clone(),
                    fields,
                    has_location,
                    has_source,
                    has_external_cause,
                    display: text,
                    span,
                    cfg_attr,
                };
                assert(described@.fields =~= Seq::new(
                    fields_view.len(),
                    |i: int| fields_view[i].unwrap(),
                ));
                Ok(described)
            },
        }
    }
}

} // verus!
