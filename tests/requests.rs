use sifis_xacml::kebab::camel_to_kebab_case;
use sifis_xacml::label::{ApiLabel, AppLabel, BehaviorLabel, Hazard, SecurityLabel};
use sifis_xacml::request::{create_request, create_requests, RenderError};
use sifis_xacml::save::{create_requests_and_save, request_file_name, SaveError};

const VALUE_OPEN: &str = "      <AttributeValue DataType=\"http://www.w3.org/2001/XMLSchema#string\">";

fn hazards(names: &[&str]) -> Vec<Hazard> {
    names.iter().map(|n| Hazard { name: n.to_string() }).collect()
}

fn api_label(behaviors: &[(&str, &str)], safety: &[&str], privacy: &[&str], financial: &[&str]) -> ApiLabel {
    ApiLabel {
        behavior_label: behaviors
            .iter()
            .map(|(d, a)| BehaviorLabel { device_type: d.to_string(), action: a.to_string() })
            .collect(),
        security_label: SecurityLabel {
            safety: hazards(safety),
            privacy: hazards(privacy),
            financial: hazards(financial),
        },
    }
}

fn value(v: &str) -> String {
    format!("{}{}</AttributeValue>\n", VALUE_OPEN, v)
}

fn environment_values(doc: &str) -> String {
    let start = doc.find("environment:hazards").unwrap();
    let rest = &doc[start..];
    let open_end = rest.find('\n').unwrap() + 1;
    let close = rest.find("    </Attribute>\n").unwrap();
    rest[open_end..close].to_string()
}

#[test]
fn kebab_examples() {
    assert_eq!(camel_to_kebab_case("deviceType"), "device-type");
    assert_eq!(camel_to_kebab_case("ABC"), "abc");
    assert_eq!(camel_to_kebab_case(""), "");
    assert_eq!(camel_to_kebab_case("turnOnTheLight"), "turn-on-the-light");
    assert_eq!(camel_to_kebab_case("FireHazard"), "fire-hazard");
    assert_eq!(camel_to_kebab_case("aB1cD"), "a-b1c-d");
}

#[test]
fn kebab_leaves_kebab_and_lowercase_alone() {
    for s in ["device-type", "install", "a1-b2", "x", "élan-vital"] {
        assert_eq!(camel_to_kebab_case(s), s);
    }
}

#[test]
fn kebab_twice_is_kebab_once() {
    for s in ["deviceType", "ABC", "getHTTPResponse", "already-kebab", "MiXeD-CaSe9Z"] {
        let once = camel_to_kebab_case(s);
        assert_eq!(camel_to_kebab_case(&once), once);
    }
}

#[test]
fn single_label_save_scenario() {
    let app = AppLabel {
        app_name: "cam".to_string(),
        api_labels: vec![api_label(&[("Camera", "install")], &["FireHazard"], &[], &[])],
    };
    let files = create_requests_and_save(&app, true).unwrap();
    assert_eq!(files.len(), 1);
    assert_eq!(files[0].name, "request_1.xml");
    let doc = &files[0].contents;
    assert!(doc.contains(&format!(
        "resource:resource-id\" IncludeInResult=\"false\">\n{}",
        value("cam")
    )));
    assert!(doc.contains(&format!(
        "resource:device-type\" IncludeInResult=\"false\">\n{}",
        value("Camera")
    )));
    assert!(doc.contains(&format!(
        "resource:action\" IncludeInResult=\"false\">\n{}",
        value("install")
    )));
    assert_eq!(environment_values(doc), value("FireHazard"));
}

#[test]
fn full_document() {
    let label = api_label(&[("SmartLight", "turnOn")], &["FireHazard"], &["LogEnergyConsumption"], &["SpendMoney"]);
    let doc = create_request(&label, "lights").unwrap();
    let expected = String::new()
        + "<?xml version=\"1.0\" encoding=\"UTF-8\"?>\n"
        + "<Request xmlns=\"urn:oasis:names:tc:xacml:3.0:core:schema:wd-17\" CombinedDecision=\"false\" ReturnPolicyIdList=\"false\">\n"
        + "  <Attributes Category=\"urn:oasis:names:tc:xacml:1.0:subject-category:access-subject\">\n"
        + "    <Attribute AttributeId=\"urn:oasis:names:tc:xacml:1.0:subject:subject-id\" IncludeInResult=\"false\">\n"
        + &value("user")
        + "    </Attribute>\n"
        + "  </Attributes>\n"
        + "  <Attributes Category=\"urn:oasis:names:tc:xacml:3.0:attribute-category:resource\">\n"
        + "    <Attribute AttributeId=\"urn:oasis:names:tc:xacml:1.0:resource:resource-id\" IncludeInResult=\"false\">\n"
        + &value("lights")
        + "    </Attribute>\n"
        + "    <Attribute AttributeId=\"eu:sifis-home:1.0:resource:device-type\" IncludeInResult=\"false\">\n"
        + &value("SmartLight")
        + "    </Attribute>\n"
        + "    <Attribute AttributeId=\"eu:sifis-home:1.0:resource:action\" IncludeInResult=\"false\">\n"
        + &value("turnOn")
        + "    </Attribute>\n"
        + "  </Attributes>\n"
        + "  <Attributes Category=\"urn:oasis:names:tc:xacml:3.0:attribute-category:action\">\n"
        + "    <Attribute AttributeId=\"urn:oasis:names:tc:xacml:1.0:action:action-id\" IncludeInResult=\"false\">\n"
        + &value("install")
        + "    </Attribute>\n"
        + "  </Attributes>\n"
        + "  <Attributes Category=\"urn:oasis:names:tc:xacml:3.0:attribute-category:environment\">\n"
        + "    <Attribute AttributeId=\"eu:sifis-home:1.0:environment:hazards\" IncludeInResult=\"false\">\n"
        + &value("FireHazard")
        + &value("LogEnergyConsumption")
        + &value("SpendMoney")
        + "    </Attribute>\n"
        + "  </Attributes>\n"
        + "</Request>\n";
    assert_eq!(doc, expected);
}

#[test]
fn hazards_in_category_order() {
    let label = api_label(&[("Oven", "bake")], &["S1", "S2"], &["P1"], &["F1", "F2"]);
    let doc = create_request(&label, "kitchen").unwrap();
    let expected: String = ["S1", "S2", "P1", "F1", "F2"].iter().map(|h| value(h)).collect();
    assert_eq!(environment_values(&doc), expected);
}

#[test]
fn no_hazards_gives_empty_attribute() {
    let label = api_label(&[("Camera", "record")], &[], &[], &[]);
    let doc = create_request(&label, "cam").unwrap();
    assert_eq!(environment_values(&doc), "");
    assert!(doc.contains(
        "environment:hazards\" IncludeInResult=\"false\">\n    </Attribute>\n  </Attributes>\n</Request>\n"
    ));
}

#[test]
fn only_first_behavior_is_used() {
    let label = api_label(&[("Camera", "record"), ("Door", "openDoor")], &[], &[], &[]);
    let doc = create_request(&label, "cam").unwrap();
    assert!(doc.contains(&value("Camera")));
    assert!(doc.contains(&value("record")));
    assert!(!doc.contains("Door"));
    assert!(!doc.contains("openDoor"));
}

#[test]
fn values_are_escaped() {
    let label = api_label(&[("A<B", "x&y")], &["it's \"hot\""], &[], &[]);
    let doc = create_request(&label, "a/b>c").unwrap();
    assert!(doc.contains(&value("a&#x2f;b&gt;c")));
    assert!(doc.contains(&value("A&lt;B")));
    assert!(doc.contains(&value("x&amp;y")));
    assert!(doc.contains(&value("it&#x27;s &quot;hot&quot;")));
}

#[test]
fn rendering_is_deterministic() {
    let label = api_label(&[("Camera", "takePicture")], &["FireHazard"], &["TakePicture"], &[]);
    let first = create_request(&label, "cam").unwrap();
    let second = create_request(&label.clone(), &"cam".to_string()).unwrap();
    assert_eq!(first.as_bytes(), second.as_bytes());
}

#[test]
fn label_without_behavior_fails() {
    let label = api_label(&[], &["FireHazard"], &[], &[]);
    assert_eq!(create_request(&label, "cam"), Err(RenderError::MissingBehavior));
}

#[test]
fn one_document_per_label_in_order() {
    let app = AppLabel {
        app_name: "home".to_string(),
        api_labels: vec![
            api_label(&[("Lamp", "turnOn")], &[], &[], &[]),
            api_label(&[("Oven", "turnOff")], &["FireHazard"], &[], &[]),
            api_label(&[("Lock", "unlock")], &[], &["Spy"], &["Pay"]),
        ],
    };
    let docs = create_requests(&app).unwrap();
    assert_eq!(docs.len(), 3);
    for (doc, label) in docs.iter().zip(app.api_labels.iter()) {
        assert_eq!(doc, &create_request(label, "home").unwrap());
    }
    assert!(docs[1].contains(&value("Oven")));
    assert!(docs[1].contains(&value("turnOff")));
}

#[test]
fn no_labels_no_documents() {
    let app = AppLabel { app_name: "empty".to_string(), api_labels: vec![] };
    assert_eq!(create_requests(&app).unwrap().len(), 0);
    assert_eq!(create_requests_and_save(&app, true).unwrap().len(), 0);
}

#[test]
fn one_missing_behavior_fails_the_whole_run() {
    let app = AppLabel {
        app_name: "home".to_string(),
        api_labels: vec![api_label(&[("Lamp", "turnOn")], &[], &[], &[]), api_label(&[], &[], &[], &[])],
    };
    assert_eq!(create_requests(&app), Err(RenderError::MissingBehavior));
    assert!(matches!(
        create_requests_and_save(&app, true),
        Err(SaveError::Render(RenderError::MissingBehavior))
    ));
}

#[test]
fn save_names_files_from_one() {
    let labels: Vec<ApiLabel> = (0..12).map(|_| api_label(&[("Lamp", "turnOn")], &[], &[], &[])).collect();
    let app = AppLabel { app_name: "lamps".to_string(), api_labels: labels };
    let files = create_requests_and_save(&app, true).unwrap();
    assert_eq!(files.len(), 12);
    for (i, f) in files.iter().enumerate() {
        assert_eq!(f.name, format!("request_{}.xml", i + 1));
    }
}

#[test]
fn save_to_missing_directory_fails_first() {
    let app = AppLabel {
        app_name: "cam".to_string(),
        api_labels: vec![api_label(&[("Camera", "install")], &["FireHazard"], &[], &[]), api_label(&[], &[], &[], &[])],
    };
    assert!(matches!(create_requests_and_save(&app, false), Err(SaveError::Config)));
}

#[test]
fn file_names() {
    assert_eq!(request_file_name(1), "request_1.xml");
    assert_eq!(request_file_name(9), "request_9.xml");
    assert_eq!(request_file_name(10), "request_10.xml");
    assert_eq!(request_file_name(0), "request_0.xml");
    assert_eq!(request_file_name(4096), "request_4096.xml");
    assert_eq!(request_file_name(usize::MAX), format!("request_{}.xml", usize::MAX));
}
