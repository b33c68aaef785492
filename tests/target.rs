use quick_xml::Reader;
use script_steps::error::ParseError;
use script_steps::target::{get_repetition, FieldReference, TableOccurrenceReference, Target, Variable};
use script_steps::xml::{EventSource, StartTag, XmlEvent};

fn get_reader(xml: &str) -> Reader<&[u8]> {
    Reader::from_str(xml.trim())
}

fn get_start(reader: &mut Reader<&[u8]>) -> StartTag {
    match reader.next_event() {
        XmlEvent::Start(e) => e,
        _ => panic!("unexpected event"),
    }
}

fn field(table: &str, name: &str, repetition: &str) -> Target {
    Target::FieldReference(FieldReference {
        name: name.to_string(),
        table_occurrence_reference: TableOccurrenceReference { name: table.to_string() },
        repetition: repetition.to_string(),
    })
}

fn variable(name: &str, repetition: &str) -> Target {
    Target::Variable(Variable { name: name.to_string(), repetition: repetition.to_string() })
}

#[test]
fn get_repetition_simple() {
    let xml = r#"<repetition value="2"></repetition>"#;

    let mut reader = get_reader(xml);
    let e = get_start(&mut reader);

    let res = get_repetition(&mut reader, &e).unwrap();
    assert_eq!(res, "2");
}

#[test]
fn get_reptition_calc() {
    let xml = r#"
<repetition>
	<Calculation datatype="1" position="10">
		<Calculation>
			<Text><![CDATA[$myRepetition1
+
$myRepetition2]]></Text>
			<ChunkList hash="FDD947ABD0DFD4804B5E5FD020096FA3">
				<Chunk type="VariableReference">$myRepetition1</Chunk>
				<Chunk type="NoRef">&#13;+&#13;</Chunk>
				<Chunk type="VariableReference">$myRepetition2</Chunk>
			</ChunkList>
		</Calculation>
	</Calculation>
</repetition>
"#;

    let mut reader = get_reader(xml);
    let e = get_start(&mut reader);

    let res = get_repetition(&mut reader, &e).unwrap();
    assert_eq!(res, "$myRepetition1\n+\n$myRepetition2");
}

#[test]
fn target_text_hides_default_repetition() {
    assert_eq!(variable("$hello", "").to_string(), "$hello");
    assert_eq!(variable("$hello", "1").to_string(), "$hello");
    assert_eq!(variable("$hello", "4").to_string(), "$hello[4]");
    assert_eq!(field("lkjflkjf", "id", "").to_string(), "lkjflkjf::id");
    assert_eq!(field("lkjflkjf", "id", "1").to_string(), "lkjflkjf::id");
    assert_eq!(field("lkjflkjf", "id", "5").to_string(), "lkjflkjf::id[5]");
    assert_eq!(field("t", "f", "$i + 1").to_string(), "t::f[$i + 1]");
    assert_eq!(variable("$v", "01").to_string(), "$v[01]");
}

#[test]
fn target_read_through_parameter_end() {
    let xml = r#"<Root><Parameter type="Target"><FieldReference name="id"><repetition value="5"></repetition><TableOccurrenceReference name="lkjflkjf"></TableOccurrenceReference></FieldReference></Parameter><After/></Root>"#;
    let mut reader = get_reader(xml);
    get_start(&mut reader);
    get_start(&mut reader);
    assert_eq!(Target::from_xml(&mut reader), Ok(field("lkjflkjf", "id", "5")));
    assert!(matches!(reader.next_event(), XmlEvent::Empty(_)));
}

#[test]
fn table_occurrence_after_the_field_makes_a_field() {
    let xml = r#"<Parameter type="Target"><TableOccurrenceReference name="t"></TableOccurrenceReference><FieldReference name="f"></FieldReference></Parameter>"#;
    let mut reader = get_reader(xml);
    get_start(&mut reader);
    assert_eq!(Target::from_xml(&mut reader), Ok(field("t", "f", "")));
}

#[test]
fn target_missing_name_is_an_error() {
    let xml = r#"<Parameter type="Target"><Variable><repetition value="1"></repetition></Variable></Parameter>"#;
    let mut reader = get_reader(xml);
    get_start(&mut reader);
    assert_eq!(Target::from_xml(&mut reader), Err(ParseError::MissingAttribute("value".to_string())));
}

#[test]
fn target_cut_short_is_unexpected_eof() {
    let xml = r#"<Parameter type="Target"><Variable value="$x">"#;
    let mut reader = get_reader(xml);
    get_start(&mut reader);
    assert_eq!(Target::from_xml(&mut reader), Err(ParseError::UnexpectedEof));
}

#[test]
fn target_builders() {
    let mut t = Target::new_variable("$x".to_string());
    assert_eq!(t, variable("$x", ""));
    t.set_repetition("3");
    assert_eq!(t, variable("$x", "3"));
    t.set_table_occurrence("ignored".to_string());
    assert_eq!(t, variable("$x", "3"));
    let mut f = field("a", "b", "1");
    f.set_table_occurrence("c".to_string());
    f.set_repetition("7");
    assert_eq!(f, field("c", "b", "7"));
    assert_eq!(f.to_string(), "c::b[7]");
}

#[test]
fn variable_with_table_occurrence_stays_a_variable() {
    let xml = r#"<Parameter type="Target"><Variable value="$x"><TableOccurrenceReference name="T"></TableOccurrenceReference><repetition value="2"></repetition></Variable></Parameter>"#;
    let mut reader = get_reader(xml);
    get_start(&mut reader);
    assert_eq!(Target::from_xml(&mut reader), Ok(variable("$x", "2")));
}

#[test]
fn field_without_table_occurrence_stays_a_field() {
    let xml = r#"<Parameter type="Target"><FieldReference name="id"><repetition value="1"></repetition></FieldReference></Parameter>"#;
    let mut reader = get_reader(xml);
    get_start(&mut reader);
    assert_eq!(Target::from_xml(&mut reader), Ok(field("", "id", "1")));
}

#[test]
fn malformed_xml_inside_a_target_fails() {
    let xml = r#"<Parameter type="Target"><Variable value="$x"></Wrong></Parameter>"#;
    let mut reader = get_reader(xml);
    get_start(&mut reader);
    assert_eq!(Target::from_xml(&mut reader), Err(ParseError::MalformedXml));
}
