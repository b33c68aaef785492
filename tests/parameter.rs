use quick_xml::Reader;
use script_steps::boolean::{Boolean, Kind};
use script_steps::error::ParseError;
use script_steps::parameter::Parameter;
use script_steps::target::{FieldReference, TableOccurrenceReference, Target, Variable};
use script_steps::xml::{EventSource, XmlEvent};

fn read_parameter(xml: &str) -> Option<Parameter> {
    let mut parameter = None;
    let mut reader = Reader::from_str(xml);
    loop {
        match reader.next_event() {
            XmlEvent::Start(tag) => {
                if tag.name == "Parameter" {
                    parameter = Some(Parameter::from_xml(&mut reader, &tag).unwrap());
                }
            }
            XmlEvent::Eof => break,
            _ => (),
        }
    }
    parameter
}

fn parameter_error(xml: &str) -> ParseError {
    let mut reader = Reader::from_str(xml);
    loop {
        match reader.next_event() {
            XmlEvent::Start(tag) => {
                if tag.name == "Parameter" {
                    return Parameter::from_xml(&mut reader, &tag).unwrap_err();
                }
            }
            XmlEvent::Eof => panic!("no parameter"),
            _ => (),
        }
    }
}

#[test]
fn test_boolean() {
    let xml = r#"
				<Parameter type="Boolean">
					<Boolean type="Select" id="4096" value="True"></Boolean>
				</Parameter>
			"#;

    assert_eq!(
        read_parameter(xml),
        Some(Parameter::Boolean(Boolean {
            kind: Kind::Select,
            value: true,
            label: "Select".to_string()
        }))
    );
}

#[test]
fn test_text() {
    let xml = r#"
				<Parameter type="Text">
					<Text value="&quot;hello&quot;a&#13;b&#13;c&#10;lf"></Text>
				</Parameter>
			"#;

    assert_eq!(
        read_parameter(xml),
        Some(Parameter::Text("\"hello\"a\rb\rc\nlf".to_string()))
    );
}

#[test]
fn test_field_reference_target() {
    let xml = r#"
			<Parameter type="Target">
				<FieldReference id="1" name="field_name" UUID="4FEADECE-195B-4BC7-83B7-57C5BBD4CD45">
					<repetition value="3"></repetition>
					<TableOccurrenceReference id="1065089" name="table_name" UUID="04AF7D77-38A6-4E99-B4B5-F27013E04589"></TableOccurrenceReference>
				</FieldReference>
			</Parameter>
		"#;

    assert_eq!(
        read_parameter(xml),
        Some(Parameter::Target(Target::FieldReference(FieldReference {
            name: "field_name".to_string(),
            table_occurrence_reference: TableOccurrenceReference {
                name: "table_name".to_string()
            },
            repetition: "3".to_string()
        })))
    );
}

#[test]
fn test_varaible_target() {
    let xml = r#"
			<Parameter type="Target">
				<Variable value="$hello">
					<repetition value="4"></repetition>
				</Variable>
			</Parameter>
		"#;

    assert_eq!(
        read_parameter(xml),
        Some(Parameter::Target(Target::Variable(Variable {
            name: "$hello".to_string(),
            repetition: "4".to_string()
        })))
    );
}

#[test]
fn text_without_value_is_empty() {
    let xml = r#"<Parameter type="Text"><Text></Text></Parameter>"#;
    assert_eq!(read_parameter(xml), Some(Parameter::Text(String::new())));
}

#[test]
fn text_with_unknown_entity_is_kept_raw() {
    let xml = r#"<Parameter type="Text"><Text value="a &amp;nbsp; b &nbsp; c"></Text></Parameter>"#;
    assert_eq!(read_parameter(xml), Some(Parameter::Text("a &amp;nbsp; b &nbsp; c".to_string())));
}

#[test]
fn calculation_parameter_is_its_source_text() {
    let xml = r#"<Parameter type="Calculation"><Calculation datatype="1" position="0"><Calculation><Text><![CDATA[Get ( CurrentDate )]]></Text><ChunkList hash="0"><Chunk type="FunctionRef">Get</Chunk></ChunkList></Calculation></Calculation></Parameter>"#;
    assert_eq!(read_parameter(xml), Some(Parameter::Calculation("Get ( CurrentDate )".to_string())));
}

#[test]
fn unknown_parameter_type_is_an_error() {
    let xml = r#"<Parameter type="Comment"><Comment value="x"></Comment></Parameter>"#;
    assert_eq!(parameter_error(xml), ParseError::UnknownParameterType("Comment".to_string()));
}

#[test]
fn parameter_without_type_is_an_error() {
    let xml = r#"<Parameter><Text value="x"></Text></Parameter>"#;
    assert_eq!(parameter_error(xml), ParseError::MissingAttribute("type".to_string()));
}

#[test]
fn malformed_xml_inside_a_text_fails() {
    let xml = r#"<Root><Parameter type="Text"><Text value="a"></Wrong></Parameter></Root>"#;
    assert_eq!(parameter_error(xml), ParseError::MalformedXml);
}

#[test]
fn references_decode_to_their_characters() {
    let xml = r#"<Parameter type="Text"><Text value="&lt;&gt;&apos;&#65;&#233;"></Text></Parameter>"#;
    assert_eq!(read_parameter(xml), Some(Parameter::Text("<>'A\u{e9}".to_string())));
}
