//! The request renderer: one XACML request document per API label.

use vstd::prelude::*;

use crate::label::{ApiLabel, ApiLabelView, AppLabel, AppLabelView, Hazard, hazard_names};

verus! {

/// Why a request could not be rendered.
#[derive(Clone, Copy, Debug, PartialEq, Eq, Structural)]
pub enum RenderError {
    /// The API label declares no behaviour, so the request has no device
    /// type and no action to name.
    MissingBehavior,
}

/// The XML declaration and the opening of the request element.
pub const HEADER: &'static str = "<?xml version=\"1.0\" encoding=\"UTF-8\"?>\n<Request xmlns=\"urn:oasis:names:tc:xacml:3.0:core:schema:wd-17\" CombinedDecision=\"false\" ReturnPolicyIdList=\"false\">\n";

/// The subject block, the same in every request.
pub const SUBJECT_BLOCK: &'static str = "  <Attributes Category=\"urn:oasis:names:tc:xacml:1.0:subject-category:access-subject\">\n    <Attribute AttributeId=\"urn:oasis:names:tc:xacml:1.0:subject:subject-id\" IncludeInResult=\"false\">\n      <AttributeValue DataType=\"http://www.w3.org/2001/XMLSchema#string\">user</AttributeValue>\n    </Attribute>\n  </Attributes>\n";

/// The opening of the resource block.
pub const RESOURCE_OPEN: &'static str = "  <Attributes Category=\"urn:oasis:names:tc:xacml:3.0:attribute-category:resource\">\n";

/// The opening of the attribute that holds the application's name.
pub const RESOURCE_ID_OPEN: &'static str = "    <Attribute AttributeId=\"urn:oasis:names:tc:xacml:1.0:resource:resource-id\" IncludeInResult=\"false\">\n";

/// The opening of the attribute that holds the device type.
pub const DEVICE_TYPE_OPEN: &'static str = "    <Attribute AttributeId=\"eu:sifis-home:1.0:resource:device-type\" IncludeInResult=\"false\">\n";

/// The opening of the attribute that holds the API's action.
pub const ACTION_OPEN: &'static str = "    <Attribute AttributeId=\"eu:sifis-home:1.0:resource:action\" IncludeInResult=\"false\">\n";

/// The opening of one attribute value.
pub const VALUE_OPEN: &'static str = "      <AttributeValue DataType=\"http://www.w3.org/2001/XMLSchema#string\">";

/// The closing of one attribute value.
pub const VALUE_CLOSE: &'static str = "</AttributeValue>\n";

/// The closing of an attribute.
pub const ATTRIBUTE_CLOSE: &'static str = "    </Attribute>\n";

/// The closing of a block of attributes.
pub const ATTRIBUTES_CLOSE: &'static str = "  </Attributes>\n";

/// The action block, the same in every request: the application is installed.
pub const ACTION_BLOCK: &'static str = "  <Attributes Category=\"urn:oasis:names:tc:xacml:3.0:attribute-category:action\">\n    <Attribute AttributeId=\"urn:oasis:names:tc:xacml:1.0:action:action-id\" IncludeInResult=\"false\">\n      <AttributeValue DataType=\"http://www.w3.org/2001/XMLSchema#string\">install</AttributeValue>\n    </Attribute>\n  </Attributes>\n";

/// The opening of the environment block and of its hazards attribute.
pub const ENVIRONMENT_OPEN: &'static str = "  <Attributes Category=\"urn:oasis:names:tc:xacml:3.0:attribute-category:environment\">\n    <Attribute AttributeId=\"eu:sifis-home:1.0:environment:hazards\" IncludeInResult=\"false\">\n";

/// The closing of the request element.
pub const FOOTER: &'static str = "</Request>\n";

/// What a character becomes in XML text.
pub open spec fn escape_char(c: char) -> Seq<char> {
    if c == '<' {
        seq!['&', 'l', 't', ';']
    } else if c == '>' {
        seq!['&', 'g', 't', ';']
    } else if c == '&' {
        seq!['&', 'a', 'm', 'p', ';']
    } else if c == '"' {
        seq!['&', 'q', 'u', 'o', 't', ';']
    } else if c == '\'' {
        seq!['&', '#', 'x', '2', '7', ';']
    } else if c == '/' {
        seq!['&', '#', 'x', '2', 'f', ';']
    } else {
        seq![c]
    }
}

/// `s` escaped for XML text, character by character.
pub open spec fn escaped(s: Seq<char>) -> Seq<char>
    decreases s.len(),
{
    if s.len() == 0 {
        seq![]
    } else {
        escaped(s.drop_last()) + escape_char(s.last())
    }
}

/// One attribute value element holding `v` escaped.
pub open spec fn value_element(v: Seq<char>) -> Seq<char> {
    VALUE_OPEN@ + escaped(v) + VALUE_CLOSE@
}

/// One attribute value element for each of `vs`, in order.
pub open spec fn value_elements(vs: Seq<Seq<char>>) -> Seq<char>
    decreases vs.len(),
{
    if vs.len() == 0 {
        seq![]
    } else {
        value_elements(vs.drop_last()) + value_element(vs.last())
    }
}

/// The resource block: the application's name, the device type and the
/// action, each as given.
pub open spec fn resource_block(app_name: Seq<char>, device_type: Seq<char>, action: Seq<char>) -> Seq<char> {
    RESOURCE_OPEN@
        + RESOURCE_ID_OPEN@ + value_element(app_name) + ATTRIBUTE_CLOSE@
        + DEVICE_TYPE_OPEN@ + value_element(device_type) + ATTRIBUTE_CLOSE@
        + ACTION_OPEN@ + value_element(action) + ATTRIBUTE_CLOSE@
        + ATTRIBUTES_CLOSE@
}

/// The environment block: one value for each hazard, safety first, then
/// privacy, then financial.
pub open spec fn environment_block(l: ApiLabelView) -> Seq<char> {
    ENVIRONMENT_OPEN@
        + value_elements(l.safety) + value_elements(l.privacy) + value_elements(l.financial)
        + ATTRIBUTE_CLOSE@ + ATTRIBUTES_CLOSE@
}

/// The request document for an API label with at least one behaviour; its
/// first behaviour gives the device type and the action.
pub open spec fn request_doc(app_name: Seq<char>, l: ApiLabelView) -> Seq<char> {
    HEADER@ + SUBJECT_BLOCK@
        + resource_block(app_name, l.behaviors[0].0, l.behaviors[0].1)
        + ACTION_BLOCK@ + environment_block(l) + FOOTER@
}

/// Relies on `minijinja::HtmlEscape`: its `Display` writes the string with
/// `<`, `>`, `&`, `"`, `'` and `/` replaced by their entities, as the
/// template engine does for XML templates.
#[verifier::external_body]
fn html_escape(s: &str) -> (r: String)
    ensures
        r@ == escaped(s@),
{
    minijinja::HtmlEscape(s).to_string()
}

fn append_value(out: &mut String, v: &str)
    ensures
        final(out)@ == old(out)@ + value_element(v@),
{
    out.append(VALUE_OPEN);
    let e = html_escape(v);
    out.append(e.as_str());
    out.append(VALUE_CLOSE);
}

fn append_hazards(out: &mut String, hs: &Vec<Hazard>)
    ensures
        final(out)@ == old(out)@ + value_elements(hazard_names(hs@)),
{
    let ghost start = out@;
    let ghost names = hazard_names(hs@);
    let mut i: usize = 0;
    while i < hs.len()
        invariant
            i <= hs.len(),
            names == hazard_names(hs@),
            out@ == start + value_elements(names.take(i as int)),
        decreases hs.len() - i,
    {
        append_value(out, hs[i].name.as_str());
        proof {
            assert(names.take(i + 1).drop_last() =~= names.take(i as int));
            assert(names.take(i + 1).last() == hs@[i as int].name@);
        }
        i += 1;
    }
    proof {
        assert(names.take(hs.len() as int) =~= names);
    }
}

/// Every API label of `a` declares at least one behaviour.
pub open spec fn all_renderable(a: AppLabelView) -> bool {
    forall|i: int| 0 <= i < a.api_labels.len() ==> #[trigger] a.api_labels[i].behaviors.len() > 0
}

/// Renders the request document of one API label of the application
/// `app_name`. It fails when the label declares no behaviour.
pub fn create_request(api_label: &ApiLabel, app_name: &str) -> (r: Result<String, RenderError>)
    ensures
        r is Ok <==> api_label@.behaviors.len() > 0,
        r is Ok ==> r->Ok_0@ == request_doc(app_name@, api_label@),
        r is Err ==> r == Err::<String, RenderError>(RenderError::MissingBehavior),
{
    if api_label.behavior_label.len() == 0 {
        return Err(RenderError::MissingBehavior);
    }
    let behavior = &api_label.behavior_label[0];
    let sec = &api_label.security_label;
    let mut out = String::new();
    out.append(HEADER);
    out.append(SUBJECT_BLOCK);
    out.append(RESOURCE_OPEN);
    out.append(RESOURCE_ID_OPEN);
    append_value(&mut out, app_name);
    out.append(ATTRIBUTE_CLOSE);
    out.append(DEVICE_TYPE_OPEN);
    append_value(&mut out, behavior.device_type.as_str());
    out.append(ATTRIBUTE_CLOSE);
    out.append(ACTION_OPEN);
    append_value(&mut out, behavior.action.as_str());
    out.append(ATTRIBUTE_CLOSE);
    out.append(ATTRIBUTES_CLOSE);
    out.append(ACTION_BLOCK);
    out.append(ENVIRONMENT_OPEN);
    append_hazards(&mut out, &sec.safety);
    append_hazards(&mut out, &sec.privacy);
    append_hazards(&mut out, &sec.financial);
    out.append(ATTRIBUTE_CLOSE);
    out.append(ATTRIBUTES_CLOSE);
    out.append(FOOTER);
    proof {
        let l = api_label@;
        assert(l.behaviors[0] == behavior@);
        assert(out@ =~= request_doc(app_name@, l));
    }
    Ok(out)
}

/// Renders one request document for each API label of `app`, in order. It
/// fails when one of the labels declares no behaviour.
pub fn create_requests(app: &AppLabel) -> (r: Result<Vec<String>, RenderError>)
    ensures
        r is Ok <==> all_renderable(app@),
        r is Ok ==> r->Ok_0.len() == app@.api_labels.len(),
        r is Ok ==> forall|i: int| 0 <= i < app@.api_labels.len()
            ==> #[trigger] r->Ok_0[i]@ == request_doc(app@.app_name, app@.api_labels[i]),
        r is Err ==> r == Err::<Vec<String>, RenderError>(RenderError::MissingBehavior),
{
    let mut docs: Vec<String> = Vec::new();
    let mut i: usize = 0;
    while i < app.api_labels.len()
        invariant
            i <= app.api_labels.len(),
            docs.len() == i,
            forall|k: int| 0 <= k < i ==> #[trigger] app@.api_labels[k].behaviors.len() > 0,
            forall|k: int| 0 <= k < i
                ==> #[trigger] docs[k]@ == request_doc(app@.app_name, app@.api_labels[k]),
        decreases app.api_labels.len() - i,
    {
        assert(app@.api_labels[i as int] == app.api_labels@[i as int]@);
        match create_request(&app.api_labels[i], app.app_name.as_str()) {
            Ok(doc) => {
                docs.push(doc);
            },
            Err(e) => {
                return Err(e);
            },
        }
        i += 1;
    }
    Ok(docs)
}

/// Rendering depends on the application's name and on the content of the
/// API label alone: equal inputs give the same document, character for
/// character, on every call.
pub proof fn lemma_render_deterministic(a1: Seq<char>, l1: ApiLabelView, a2: Seq<char>, l2: ApiLabelView)
    requires
        a1 == a2,
        l1 == l2,
    ensures
        request_doc(a1, l1) == request_doc(a2, l2),
{
}

/// An API label with no hazard in any category gets a hazards attribute with
/// no value element: the environment block is its opening and closing alone.
pub proof fn lemma_no_hazards_empty_attribute(l: ApiLabelView)
    requires
        l.safety.len() == 0,
        l.privacy.len() == 0,
        l.financial.len() == 0,
    ensures
        environment_block(l) == ENVIRONMENT_OPEN@ + ATTRIBUTE_CLOSE@ + ATTRIBUTES_CLOSE@,
{
    assert(value_elements(l.safety) == Seq::<char>::empty());
    assert(value_elements(l.privacy) == Seq::<char>::empty());
    assert(value_elements(l.financial) == Seq::<char>::empty());
    assert(environment_block(l) =~= ENVIRONMENT_OPEN@ + ATTRIBUTE_CLOSE@ + ATTRIBUTES_CLOSE@);
}

} // verus!
