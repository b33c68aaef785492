use script_steps::error::ParseError;
use script_steps::insert_calculated_result;
use script_steps::insert_current_time;
use script_steps::insert_text::{decompile, sanitize};
use script_steps::xml::{EventList, StartTag, XmlEvent};

fn insert_text_step(select: &str, target: &str, text: &str) -> String {
    format!(
        r#"<Step index="0" id="61" name="Insert Text" enable="True"><ParameterValues membercount="3"><Parameter type="Boolean"><Boolean type="Select" id="4096" value="{}"></Boolean></Parameter>{}<Parameter type="Text"><Text{}></Text></Parameter></ParameterValues></Step>"#,
        select, target, text
    )
}

const HELLO_REP_1: &str = r#"<Parameter type="Target"><Variable value="$hello"><repetition value="1"></repetition></Variable></Parameter>"#;
const HELLO_REP_4: &str = r#"<Parameter type="Target"><Variable value="$hello"><repetition value="4"></repetition></Variable></Parameter>"#;
const FIELD_REP_5: &str = r#"<Parameter type="Target"><FieldReference id="1" name="id"><repetition value="5"></repetition><TableOccurrenceReference id="1065089" name="lkjflkjf"></TableOccurrenceReference></FieldReference></Parameter>"#;

#[test]
fn insert_text_select_false_empty_text() {
    assert_eq!(sanitize(&insert_text_step("False", "", "")), Ok(Some("Insert Text []".to_string())));
}

#[test]
fn insert_text_select_true() {
    assert_eq!(sanitize(&insert_text_step("True", "", "")), Ok(Some("Insert Text [ Select ]".to_string())));
}

#[test]
fn insert_text_variable_default_repetition() {
    assert_eq!(
        sanitize(&insert_text_step("True", HELLO_REP_1, "")),
        Ok(Some("Insert Text [ Select ; Target: $hello ]".to_string()))
    );
}

#[test]
fn insert_text_variable_repetition_four() {
    assert_eq!(
        sanitize(&insert_text_step("True", HELLO_REP_4, "")),
        Ok(Some("Insert Text [ Select ; Target: $hello[4] ]".to_string()))
    );
}

#[test]
fn insert_text_field_repetition_and_text() {
    assert_eq!(
        sanitize(&insert_text_step("True", FIELD_REP_5, r#" value="a&#13;b&#13;c""#)),
        Ok(Some("Insert Text [ Select ; Target: lkjflkjf::id[5] ; \u{201c}a\rb\rc\u{201d} ]".to_string()))
    );
}

#[test]
fn unknown_boolean_id_fails_every_step() {
    let xml = r#"<Step id="61" name="Insert Text"><ParameterValues><Parameter type="Boolean"><Boolean type="Select" id="9999" value="True"></Boolean></Parameter></ParameterValues></Step>"#;
    assert_eq!(sanitize(xml), Err(ParseError::UnknownBooleanKind("9999".to_string())));
    assert_eq!(insert_calculated_result::sanitize(xml), Err(ParseError::UnknownBooleanKind("9999".to_string())));
    assert_eq!(insert_current_time::sanitize(xml), Err(ParseError::UnknownBooleanKind("9999".to_string())));
}

#[test]
fn same_fragment_same_line() {
    let xml = insert_text_step("True", FIELD_REP_5, r#" value="x""#);
    let first = sanitize(&xml);
    assert_eq!(first, sanitize(&xml));
    assert_eq!(first, Ok(Some("Insert Text [ Select ; Target: lkjflkjf::id[5] ; \u{201c}x\u{201d} ]".to_string())));
    let calc = insert_calculated_result::sanitize(&xml);
    assert_eq!(calc, insert_calculated_result::sanitize(&xml));
}

#[test]
fn repetition_one_or_empty_has_no_bracket() {
    let empty = r#"<Parameter type="Target"><Variable value="$v"><repetition value=""></repetition></Variable></Parameter>"#;
    let none = r#"<Parameter type="Target"><Variable value="$v"></Variable></Parameter>"#;
    let other = r#"<Parameter type="Target"><Variable value="$v"><repetition value="12"></repetition></Variable></Parameter>"#;
    assert_eq!(sanitize(&insert_text_step("False", empty, "")), Ok(Some("Insert Text [ Target: $v ]".to_string())));
    assert_eq!(sanitize(&insert_text_step("False", none, "")), Ok(Some("Insert Text [ Target: $v ]".to_string())));
    assert_eq!(sanitize(&insert_text_step("False", other, "")), Ok(Some("Insert Text [ Target: $v[12] ]".to_string())));
}

#[test]
fn select_false_contributes_nothing_true_its_label() {
    let step = |value: &str| {
        format!(
            r#"<Step name="Insert Calculated Result"><ParameterValues><Parameter type="Boolean"><Boolean type="Auswahl" id="4096" value="{}"></Boolean></Parameter></ParameterValues></Step>"#,
            value
        )
    };
    assert_eq!(insert_calculated_result::sanitize(&step("False")), Ok(Some("Insert Calculated Result []".to_string())));
    assert_eq!(insert_calculated_result::sanitize(&step("True")), Ok(Some("Insert Calculated Result [ Auswahl ]".to_string())));
    assert_eq!(sanitize(&step("True").replace("Insert Calculated Result", "Insert Text")), Ok(Some("Insert Text [ Auswahl ]".to_string())));
}

#[test]
fn current_time_shows_select_even_when_off() {
    let xml = r#"<Step name="Insert Current Time"><ParameterValues><Parameter type="Boolean"><Boolean type="Select" id="4096" value="False"></Boolean></Parameter></ParameterValues></Step>"#;
    assert_eq!(insert_current_time::sanitize(xml), Ok(Some("Insert Current Time [ Select ]".to_string())));
}

#[test]
fn entities_decode_before_quoting() {
    assert_eq!(
        sanitize(&insert_text_step("False", "", r#" value="&quot;q&quot; &amp; &#13;end""#)),
        Ok(Some("Insert Text [ \u{201c}\"q\" & \rend\u{201d} ]".to_string()))
    );
}

#[test]
fn no_step_tag_gives_nothing() {
    assert_eq!(sanitize("<Other name=\"x\"></Other>"), Ok(None));
    assert_eq!(sanitize(""), Ok(None));
    assert_eq!(insert_current_time::sanitize("<Step></Step>"), Ok(None));
}

#[test]
fn step_without_parameters_is_bare() {
    assert_eq!(sanitize(r#"<Step name="Beep"></Step>"#), Ok(Some("Beep []".to_string())));
    assert_eq!(sanitize(r#"<Step name="Beep"><ParameterValues/></Step>"#), Ok(Some("Beep []".to_string())));
}

#[test]
fn parameter_list_cut_short_is_unexpected_eof() {
    assert_eq!(sanitize(r#"<Step name="Insert Text"><ParameterValues><Parameter type="Text"><Text value="a">"#), Err(ParseError::UnexpectedEof));
}

#[test]
fn unknown_parameter_type_fails_the_step() {
    let xml = r#"<Step name="Insert Text"><ParameterValues><Parameter type="URL"><URL></URL></Parameter></ParameterValues></Step>"#;
    assert_eq!(sanitize(xml), Err(ParseError::UnknownParameterType("URL".to_string())));
}

#[test]
fn malformed_xml_inside_a_flag_is_reported() {
    let xml = r#"<Step name="Insert Text"><ParameterValues><Parameter type="Boolean"><Boolean type="Select" id="4096" value="True"></Wrong></Parameter></ParameterValues></Step>"#;
    assert_eq!(sanitize(xml), Err(ParseError::MalformedXml));
}

fn start(name: &str, attributes: &[(&str, &str)]) -> XmlEvent {
    XmlEvent::Start(StartTag {
        name: name.to_string(),
        attributes: attributes.iter().map(|(k, v)| (k.to_string(), v.to_string())).collect(),
    })
}

fn end(name: &str) -> XmlEvent {
    XmlEvent::End(name.to_string())
}

#[test]
fn decompile_from_events_in_memory() {
    let events = vec![
        start("Step", &[("name", "Insert Text")]),
        start("ParameterValues", &[]),
        start("Parameter", &[("type", "Boolean")]),
        start("Boolean", &[("type", "Select"), ("id", "4096"), ("value", "True")]),
        end("Boolean"),
        end("Parameter"),
        start("Parameter", &[("type", "Target")]),
        start("Variable", &[("value", "$v")]),
        start("repetition", &[]),
        start("Calculation", &[]),
        start("Text", &[]),
        XmlEvent::CData("$i".to_string()),
        XmlEvent::Text("+1&amp;".to_string()),
        end("Text"),
        end("Calculation"),
        end("repetition"),
        end("Variable"),
        end("Parameter"),
        start("Parameter", &[("type", "Text")]),
        start("Text", &[("value", "hi")]),
        end("Text"),
        end("Parameter"),
        end("ParameterValues"),
        end("Step"),
    ];
    let mut list = EventList::new(events);
    assert_eq!(decompile(&mut list), Ok(Some("Insert Text [ Select ; Target: $v[$i+1&] ; \u{201c}hi\u{201d} ]".to_string())));
}

#[test]
fn decompile_passes_over_invalid_events_between_elements() {
    let events = vec![XmlEvent::Invalid, start("Step", &[("name", "Beep")]), XmlEvent::Other, end("Step")];
    let mut list = EventList::new(events);
    assert_eq!(decompile(&mut list), Ok(Some("Beep []".to_string())));
}

#[test]
fn malformed_xml_between_parameters_fails_the_step() {
    let xml = r#"<Step name="Insert Text"><ParameterValues><Parameter type="Text"><Text value="a"></Text></Parameter></Wrong></ParameterValues></Step>"#;
    assert_eq!(sanitize(xml), Err(ParseError::MalformedXml));
}

#[test]
fn variable_with_table_occurrence_is_shown_as_a_variable() {
    let target = r#"<Parameter type="Target"><Variable value="$x"><TableOccurrenceReference name="T"></TableOccurrenceReference></Variable></Parameter>"#;
    assert_eq!(sanitize(&insert_text_step("False", target, "")), Ok(Some("Insert Text [ Target: $x ]".to_string())));
}
