//! The generator of extraction records: for a host-side record, the plain
//! record that extraction yields, or an extraction by copy where no target
//! is named.

use vstd::prelude::*;
use vstd::string::*;
use crate::schema::{
    Annotation, AnnotationForm, AnnotationView, DeclarationBody, DeclarationBodyView,
    FieldDeclaration, FieldDeclarationView, SchemaDeclaration, SchemaDeclarationView,
    annotations_view, fields_view,
};
use crate::text::{option_string_view, str_equal};
use crate::token::{TokenKind, tokens_view};

verus! {

/// Whether a literal's text is a plain string literal: quoted, without a backslash.
pub open spec fn is_plain_string(text: Seq<char>) -> bool {
    &&& text.len() >= 2
    &&& text[0] == '"'
    &&& text[text.len() - 1] == '"'
    &&& !text.contains('\\')
}

/// The target that one annotation names: `extract_to(Name)` or `extract_to = "Name"`.
pub open spec fn target_here(a: AnnotationView) -> Option<Seq<char>> {
    if a.name != "extract_to"@ {
        None
    } else if a.form == AnnotationForm::List && a.tokens.len() == 1 && a.tokens[0].kind
        == TokenKind::Ident {
        Some(a.tokens[0].text)
    } else if a.form == AnnotationForm::NameValue && a.tokens.len() == 1 && a.tokens[0].kind
        == TokenKind::Literal && is_plain_string(a.tokens[0].text) {
        Some(a.tokens[0].text.subrange(1, a.tokens[0].text.len() - 1))
    } else {
        None
    }
}

/// The name of the extraction record: that of the last annotation that names one.
pub open spec fn target_of(annotations: Seq<AnnotationView>) -> Option<Seq<char>>
    decreases annotations.len(),
{
    if annotations.len() == 0 {
        None
    } else {
        match target_here(annotations.last()) {
            Some(t) => Some(t),
            None => target_of(annotations.drop_last()),
        }
    }
}

/// Whether a field stays out of the extraction record: it is marked
/// `extract_ignore`, or it is the handle to the host object, marked `base`.
pub open spec fn is_skipped(f: FieldDeclarationView) -> bool {
    exists|i: int| 0 <= i < f.annotations.len() && is_skip_marker(#[trigger] f.annotations[i])
}

/// Whether an annotation keeps its field out of the extraction record.
pub open spec fn is_skip_marker(a: AnnotationView) -> bool {
    a.name == "extract_ignore"@ || a.name == "base"@
}

/// One field of an extraction record.
#[derive(Clone, Debug)]
pub struct ExtractedField {
    pub name: String,
    /// The host-side type whose extracted form the field has.
    pub host_type: String,
}

/// The mathematical value of [`ExtractedField`].
pub struct ExtractedFieldView {
    pub name: Seq<char>,
    pub host_type: Seq<char>,
}

impl View for ExtractedField {
    type V = ExtractedFieldView;

    open spec fn view(&self) -> ExtractedFieldView {
        ExtractedFieldView { name: self.name@, host_type: self.host_type@ }
    }
}

/// The mathematical values of a sequence, element by element.
pub open spec fn extracted_fields_view(fields: Seq<ExtractedField>) -> Seq<ExtractedFieldView> {
    fields.map_values(|f: ExtractedField| f@)
}

/// The fields of the extraction record: the fields that are not skipped, in order.
pub open spec fn extracted_fields(fields: Seq<FieldDeclarationView>) -> Seq<ExtractedFieldView>
    decreases fields.len(),
{
    if fields.len() == 0 {
        Seq::empty()
    } else {
        let rest = extracted_fields(fields.drop_last());
        if is_skipped(fields.last()) {
            rest
        } else {
            rest.push(ExtractedFieldView { name: fields.last().name, host_type: fields.last().ty.text })
        }
    }
}

/// What is generated for a host-side declaration.
#[derive(Clone, Debug)]
pub enum ExtractionArtifact {
    /// Extraction by copy: the extracted type is the type itself.
    ByCopy { name: String },
    /// Extraction into a record of its own.
    IntoRecord { name: String, visibility: String, target: String, fields: Vec<ExtractedField> },
}

/// The mathematical value of [`ExtractionArtifact`].
pub enum ExtractionArtifactView {
    ByCopy { name: Seq<char> },
    IntoRecord {
        name: Seq<char>,
        visibility: Seq<char>,
        target: Seq<char>,
        fields: Seq<ExtractedFieldView>,
    },
}

impl View for ExtractionArtifact {
    type V = ExtractionArtifactView;

    open spec fn view(&self) -> ExtractionArtifactView {
        match self {
            ExtractionArtifact::ByCopy { name } => ExtractionArtifactView::ByCopy { name: name@ },
            ExtractionArtifact::IntoRecord {
                name,
                visibility,
                target,
                fields,
            } => ExtractionArtifactView::IntoRecord {
                name: name@,
                visibility: visibility@,
                target: target@,
                fields: extracted_fields_view(fields@),
            },
        }
    }
}

/// The named fields of a record; none for any other declaration.
pub open spec fn record_fields(body: DeclarationBodyView) -> Seq<FieldDeclarationView> {
    match body {
        DeclarationBodyView::Composite(fields) => fields,
        _ => Seq::empty(),
    }
}

/// What the extraction generator produces: with a target, the record of the
/// fields that are not skipped; without one, extraction by copy.
pub open spec fn extraction_of(d: SchemaDeclarationView) -> ExtractionArtifactView {
    match target_of(d.annotations) {
        Some(target) => ExtractionArtifactView::IntoRecord {
            name: d.name,
            visibility: d.visibility,
            target,
            fields: extracted_fields(record_fields(d.body)),
        },
        None => ExtractionArtifactView::ByCopy { name: d.name },
    }
}

/// The target that one annotation names.
pub fn annotation_target(a: &Annotation) -> (target: Option<String>)
    ensures
        option_string_view(target) == target_here(a@),
{
    if !str_equal(a.name.as_str(), "extract_to") {
        return None;
    }
    if a.tokens.len() != 1 {
        return None;
    }
    proof {
        assert(tokens_view(a.tokens@)[0] == a.tokens[0]@);
    }
    let token = &a.tokens[0];
    if a.form == AnnotationForm::List && token.kind == TokenKind::Ident {
        return Some(token.text.clone());
    }
    if a.form == AnnotationForm::NameValue && token.kind == TokenKind::Literal {
        let text = token.text.as_str();
        let n = text.unicode_len();
        if n < 2 || text.get_char(0) != '"' || text.get_char(n - 1) != '"' {
            return None;
        }
        let mut i: usize = 0;
        while i < n
            invariant
                i <= n,
                n == text@.len(),
                a@.name == "extract_to"@,
                a@.form == AnnotationForm::NameValue,
                a@.tokens.len() == 1,
                a@.tokens[0].text == text@,
                forall|k: int| 0 <= k < i ==> text@[k] != '\\',
            decreases n - i,
        {
            if text.get_char(i) == '\\' {
                proof {
                    assert(text@[i as int] == '\\');
                    assert(text@.contains('\\'));
                }
                return None;
            }
            i += 1;
        }
        proof {
            assert(!text@.contains('\\'));
        }
        return Some(text.substring_char(1, n - 1).to_string());
    }
    None
}

/// The name of the extraction record that a declaration's annotations give.
pub fn extraction_target(annotations: &Vec<Annotation>) -> (target: Option<String>)
    ensures
        option_string_view(target) == target_of(annotations_view(annotations@)),
{
    let ghost views = annotations_view(annotations@);
    let mut target: Option<String> = None;
    let mut i: usize = 0;
    while i < annotations.len()
        invariant
            i <= annotations.len(),
            views == annotations_view(annotations@),
            option_string_view(target) == target_of(views.take(i as int)),
        decreases annotations.len() - i,
    {
        proof {
            assert(views.take(i + 1).drop_last() == views.take(i as int));
            assert(views.take(i + 1).last() == annotations[i as int]@);
        }
        let here = annotation_target(&annotations[i]);
        if here.is_some() {
            target = here;
        }
        i += 1;
    }
    proof {
        assert(views.take(annotations.len() as int) == views);
    }
    target
}

/// Whether a field stays out of the extraction record.
pub fn skipped(f: &FieldDeclaration) -> (b: bool)
    ensures
        b == is_skipped(f@),
{
    let ghost views = annotations_view(f.annotations@);
    let mut i: usize = 0;
    while i < f.annotations.len()
        invariant
            i <= f.annotations.len(),
            views == annotations_view(f.annotations@),
            views == f@.annotations,
            forall|k: int| 0 <= k < i ==> !is_skip_marker(#[trigger] views[k]),
        decreases f.annotations.len() - i,
    {
        let name = f.annotations[i].name.as_str();
        if str_equal(name, "extract_ignore") || str_equal(name, "base") {
            proof {
                assert(views[i as int] == f.annotations[i as int]@);
                assert(is_skip_marker(f@.annotations[i as int]));
            }
            return true;
        }
        proof {
            assert(views[i as int] == f.annotations[i as int]@);
        }
        i += 1;
    }
    false
}

/// Generates the extraction for one host-side declaration.
pub fn expand_extraction(decl: &SchemaDeclaration) -> (artifact: ExtractionArtifact)
    ensures
        artifact@ == extraction_of(decl@),
{
    let target = match extraction_target(&decl.annotations) {
        Some(target) => target,
        None => {
            return ExtractionArtifact::ByCopy { name: decl.name.clone() };
        },
    };
    let mut out: Vec<ExtractedField> = Vec::new();
    proof {
        assert(extracted_fields_view(out@) == Seq::<ExtractedFieldView>::empty());
    }
    match &decl.body {
        DeclarationBody::Composite(fields) => {
            let ghost views = fields_view(fields@);
            let mut i: usize = 0;
            while i < fields.len()
                invariant
                    i <= fields.len(),
                    views == fields_view(fields@),
                    extracted_fields_view(out@) == extracted_fields(views.take(i as int)),
                decreases fields.len() - i,
            {
                let f = &fields[i];
                proof {
                    assert(views.take(i + 1).drop_last() == views.take(i as int));
                    assert(views.take(i + 1).last() == f@);
                }
                let ghost before = out@;
                if !skipped(f) {
                    out.push(ExtractedField { name: f.name.clone(), host_type: f.ty.text.clone() });
                    proof {
                        assert(extracted_fields_view(out@) == extracted_fields_view(before).push(
                            out@.last()@,
                        ));
                    }
                }
                i += 1;
            }
            proof {
                assert(views.take(fields.len() as int) == views);
            }
        },
        _ => {},
    }
    ExtractionArtifact::IntoRecord {
        name: decl.name.clone(),
        visibility: decl.visibility.clone(),
        target,
        fields: out,
    }
}

/// The declaration of one field of the extraction record.
pub open spec fn extracted_field_text(f: ExtractedFieldView) -> Seq<char> {
    "pub "@ + f.name + ": < "@ + f.host_type + " as ExtractGd>::Extracted, "@
}

/// The declarations of the fields of the extraction record, in order.
pub open spec fn extracted_fields_text(fields: Seq<ExtractedFieldView>) -> Seq<char>
    decreases fields.len(),
{
    if fields.len() == 0 {
        Seq::empty()
    } else {
        extracted_fields_text(fields.drop_last()) + extracted_field_text(fields.last())
    }
}

/// The part of the extraction that fills one field of the record.
pub open spec fn field_extraction_text(f: ExtractedFieldView) -> Seq<char> {
    f.name + ": self."@ + f.name + ".extract(), "@
}

/// The body of the extraction, one part for each field, in order.
pub open spec fn field_extractions_text(fields: Seq<ExtractedFieldView>) -> Seq<char>
    decreases fields.len(),
{
    if fields.len() == 0 {
        Seq::empty()
    } else {
        field_extractions_text(fields.drop_last()) + field_extraction_text(fields.last())
    }
}

/// The source text generated for an extraction.
pub open spec fn extraction_text(a: ExtractionArtifactView) -> Seq<char> {
    match a {
        ExtractionArtifactView::ByCopy { name } => "impl ExtractGd for "@ + name + " where "@ + name
            + " : Clone { type Extracted = "@ + name
            + "; fn extract(&self) -> Self::Extracted { self.clone() } }"@,
        ExtractionArtifactView::IntoRecord { name, visibility, target, fields } => visibility
            + " struct "@ + target + " { "@ + extracted_fields_text(fields)
            + "} impl ExtractGd for "@ + name + " { type Extracted = "@ + target
            + "; fn extract(&self) -> Self::Extracted { "@ + target + " { "@
            + field_extractions_text(fields) + "} } }"@,
    }
}

/// Appends the declarations of the fields of the extraction record.
fn push_extracted_fields(out: &mut String, fields: &Vec<ExtractedField>)
    ensures
        final(out)@ == old(out)@ + extracted_fields_text(extracted_fields_view(fields@)),
{
    let ghost start = out@;
    let ghost views = extracted_fields_view(fields@);
    let mut i: usize = 0;
    while i < fields.len()
        invariant
            i <= fields.len(),
            views == extracted_fields_view(fields@),
            out@ == start + extracted_fields_text(views.take(i as int)),
        decreases fields.len() - i,
    {
        proof {
            assert(views.take(i + 1).drop_last() == views.take(i as int));
            assert(views.take(i + 1).last() == fields[i as int]@);
        }
        let mut text = "pub ".to_string();
        text.append(fields[i].name.as_str());
        text.append(": < ");
        text.append(fields[i].host_type.as_str());
        text.append(" as ExtractGd>::Extracted, ");
        out.append(text.as_str());
        proof {
            assert(out@ == start + extracted_fields_text(views.take(i + 1)));
        }
        i += 1;
    }
    proof {
        assert(views.take(fields.len() as int) == views);
    }
}

/// Appends the body of the extraction.
fn push_field_extractions(out: &mut String, fields: &Vec<ExtractedField>)
    ensures
        final(out)@ == old(out)@ + field_extractions_text(extracted_fields_view(fields@)),
{
    let ghost start = out@;
    let ghost views = extracted_fields_view(fields@);
    let mut i: usize = 0;
    while i < fields.len()
        invariant
            i <= fields.len(),
            views == extracted_fields_view(fields@),
            out@ == start + field_extractions_text(views.take(i as int)),
        decreases fields.len() - i,
    {
        proof {
            assert(views.take(i + 1).drop_last() == views.take(i as int));
            assert(views.take(i + 1).last() == fields[i as int]@);
        }
        let mut text = fields[i].name.clone();
        text.append(": self.");
        text.append(fields[i].name.as_str());
        text.append(".extract(), ");
        out.append(text.as_str());
        proof {
            assert(out@ == start + field_extractions_text(views.take(i + 1)));
        }
        i += 1;
    }
    proof {
        assert(views.take(fields.len() as int) == views);
    }
}

/// The source text generated for an extraction.
pub fn render_extraction(a: &ExtractionArtifact) -> (out: String)
    ensures
        out@ == extraction_text(a@),
{
    match a {
        ExtractionArtifact::ByCopy { name } => {
            let mut out = "impl ExtractGd for ".to_string();
            out.append(name.as_str());
            out.append(" where ");
            out.append(name.as_str());
            out.append(" : Clone { type Extracted = ");
            out.append(name.as_str());
            out.append("; fn extract(&self) -> Self::Extracted { self.clone() } }");
            out
        },
        ExtractionArtifact::IntoRecord { name, visibility, target, fields } => {
            let mut out = visibility.clone();
            out.append(" struct ");
            out.append(target.as_str());
            out.append(" { ");
            push_extracted_fields(&mut out, fields);
            out.append("} impl ExtractGd for ");
            out.append(name.as_str());
            out.append(" { type Extracted = ");
            out.append(target.as_str());
            out.append("; fn extract(&self) -> Self::Extracted { ");
            out.append(target.as_str());
            out.append(" { ");
            push_field_extractions(&mut out, fields);
            out.append("} } }");
            out
        },
    }
}

/// Expands one host-side declaration into the source text of its extraction.
pub fn derive_inner(decl: &SchemaDeclaration) -> (out: String)
    ensures
        out@ == extraction_text(extraction_of(decl@)),
{
    let artifact = expand_extraction(decl);
    render_extraction(&artifact)
}

} // verus!
