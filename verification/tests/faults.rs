use camtrap_dp::codec::{decode_table, encode_table, find_column};
use camtrap_dp::value::{decode_cell, encode_cell};
use camtrap_dp::wire::{read_table, write_table};
use camtrap_dp::{
    CameraSetupType, CaptureMethod, CellFault, ClassificationMethod, Column, DateTime, Decimal,
    DecodeError, Deployment, ExifData, FeatureType, Kind, LifeStage, Medium, Observation,
    ObservationLevel, ObservationType, ReadDataPackageCsv, Record, Sex, TableFault, Value,
};

const MEDIA_HEADER: &str = "mediaID,deploymentID,timestamp,filePath,filePublic,fileMediatype";

fn medium_fault(row: &str) -> TableFault {
    let content = format!("{}\n{}\n", MEDIA_HEADER, row);
    match Medium::from_bytes(content.as_bytes()) {
        Err(DecodeError::Table(fault)) => fault,
        other => panic!("expected a table fault, got {:?}", other),
    }
}

#[test]
fn empty_required_field_is_refused() {
    let content = "deploymentID,deploymentStart,deploymentEnd\n\
                   ,2020-05-30T02:57:37Z,2020-07-01T09:41:41Z\n";
    match Deployment::from_bytes(content.as_bytes()) {
        Err(DecodeError::Table(fault)) => {
            assert_eq!(fault, TableFault::Cell { row: 1, field: 0, fault: CellFault::Empty })
        }
        other => panic!("expected a table fault, got {:?}", other),
    }
    assert_eq!(decode_cell(Kind::Text, true, ""), Err(CellFault::Empty));
    assert_eq!(decode_cell(Kind::Text, false, ""), Ok(Value::Absent));
    assert_eq!(decode_cell(Kind::DateTime, true, ""), Err(CellFault::Empty));
    assert_eq!(decode_cell(Kind::Flag, true, ""), Err(CellFault::Empty));
}

#[test]
fn unknown_token_is_refused() {
    let content = "observationID,deploymentID,observationLevel,observationType\n\
                   o1,d1,media,alien\n";
    match Observation::from_bytes(content.as_bytes()) {
        Err(DecodeError::Table(fault)) => {
            assert_eq!(fault, TableFault::Cell { row: 1, field: 7, fault: CellFault::Token })
        }
        other => panic!("expected a table fault, got {:?}", other),
    }
    assert_eq!(decode_cell(Kind::ObservationType, true, "Animal"), Err(CellFault::Token));
    assert_eq!(decode_cell(Kind::ObservationType, true, "animal "), Err(CellFault::Token));
    assert_eq!(decode_cell(Kind::Sex, false, "fem"), Err(CellFault::Token));
    assert_eq!(decode_cell(Kind::FeatureType, false, "road"), Err(CellFault::Token));
    assert_eq!(decode_cell(Kind::ClassificationMethod, false, "animal"), Err(CellFault::Token));
}

#[test]
fn date_time_without_offset_is_refused() {
    assert_eq!(
        medium_fault("m1,d1,2023-01-01T10:00:00,a.jpg,true,image/jpeg"),
        TableFault::Cell { row: 1, field: 3, fault: CellFault::DateTime }
    );
    assert!(DateTime::parse("2023-01-01T10:00:00").is_none());
    assert!(DateTime::parse("2023-01-01").is_none());
    assert!(DateTime::parse("2023-01-01T10:00:00+0100").is_none());
    assert!(DateTime::parse("2023-01-01T10:00:00 UTC").is_none());
    assert!(DateTime::parse("2023-13-01T10:00:00Z").is_none());
    assert!(DateTime::parse("not a date Z").is_none());
    assert!(DateTime::parse("2023-01-01T10:00:00Z").is_some());
    assert!(DateTime::parse("2023-01-01T10:00:00z").is_some());
    assert!(DateTime::parse("2023-01-01T10:00:00+01:00").is_some());
    assert!(DateTime::parse("2023-01-01T10:00:00.250-08:30").is_some());
}

#[test]
fn flag_is_exactly_true_or_false() {
    assert_eq!(
        medium_fault("m1,d1,2023-01-01T10:00:00Z,a.jpg,yes,image/jpeg"),
        TableFault::Cell { row: 1, field: 5, fault: CellFault::Flag }
    );
    assert_eq!(decode_cell(Kind::Flag, true, "true"), Ok(Value::Flag(true)));
    assert_eq!(decode_cell(Kind::Flag, true, "false"), Ok(Value::Flag(false)));
    for text in ["True", "FALSE", "1", "0", "yes", "no", " true", "true ", "t"] {
        assert_eq!(decode_cell(Kind::Flag, false, text), Err(CellFault::Flag), "{}", text);
    }
}

#[test]
fn malformed_numbers_are_refused() {
    let header = "observationID,deploymentID,observationLevel,observationType,count,bboxX";
    let bad_count = format!("{}\no1,d1,media,animal,two,0.5\n", header);
    match Observation::from_bytes(bad_count.as_bytes()) {
        Err(DecodeError::Table(fault)) => {
            assert_eq!(fault, TableFault::Cell { row: 1, field: 10, fault: CellFault::Count })
        }
        other => panic!("expected a table fault, got {:?}", other),
    }
    let bad_decimal = format!("{}\no1,d1,media,animal,2,half\n", header);
    match Observation::from_bytes(bad_decimal.as_bytes()) {
        Err(DecodeError::Table(fault)) => {
            assert_eq!(fault, TableFault::Cell { row: 1, field: 18, fault: CellFault::Decimal })
        }
        other => panic!("expected a table fault, got {:?}", other),
    }
    assert_eq!(decode_cell(Kind::Count, false, "3"), Ok(Value::Count(3)));
    assert_eq!(decode_cell(Kind::Count, false, "3.0"), Err(CellFault::Count));
    assert_eq!(decode_cell(Kind::Count, false, "-3"), Err(CellFault::Count));
}

#[test]
fn exif_that_is_not_json_is_refused() {
    let content = format!("{},exifData\nm1,d1,2023-01-01T10:00:00Z,a.jpg,true,image/jpeg,{{ISO:400\n", MEDIA_HEADER);
    match Medium::from_bytes(content.as_bytes()) {
        Err(DecodeError::Table(fault)) => {
            assert_eq!(fault, TableFault::Cell { row: 1, field: 8, fault: CellFault::Exif })
        }
        other => panic!("expected a table fault, got {:?}", other),
    }
    assert!(ExifData::parse("{\"ISO\":400}").is_some());
    assert!(ExifData::parse("[1, 2, 3]").is_some());
    assert!(ExifData::parse("{\"ISO\":400").is_none());
    assert!(ExifData::parse("ISO").is_none());
    assert!(ExifData::parse("").is_none());
    assert_eq!(ExifData::parse(" {\"a\": [1, 2]} ").unwrap().as_str(), " {\"a\": [1, 2]} ");
}

#[test]
fn row_of_another_length_is_refused() {
    assert_eq!(
        medium_fault("m1,d1,2023-01-01T10:00:00Z,a.jpg,true"),
        TableFault::ColumnCount { row: 1, expected: 6, found: 5 }
    );
    let content = format!(
        "{}\nm1,d1,2023-01-01T10:00:00Z,a.jpg,true,image/jpeg\nm2,d1,2023-01-01T10:00:00Z,b.jpg,true,image/jpeg,extra\n",
        MEDIA_HEADER
    );
    match Medium::from_bytes(content.as_bytes()) {
        Err(DecodeError::Table(fault)) => {
            assert_eq!(fault, TableFault::ColumnCount { row: 2, expected: 6, found: 7 })
        }
        other => panic!("expected a table fault, got {:?}", other),
    }
}

#[test]
fn header_must_name_required_fields_once() {
    let missing = "mediaID,deploymentID,timestamp,filePath,filePublic\n\
                   m1,d1,2023-01-01T10:00:00Z,a.jpg,true\n";
    match Medium::from_bytes(missing.as_bytes()) {
        Err(DecodeError::Table(fault)) => assert_eq!(fault, TableFault::MissingColumn { field: 7 }),
        other => panic!("expected a table fault, got {:?}", other),
    }
    let repeated = "mediaID,deploymentID,timestamp,filePath,filePublic,fileMediatype,mediaID\n\
                    m1,d1,2023-01-01T10:00:00Z,a.jpg,true,image/jpeg,m1\n";
    match Medium::from_bytes(repeated.as_bytes()) {
        Err(DecodeError::Table(fault)) => assert_eq!(fault, TableFault::RepeatedColumn { field: 0 }),
        other => panic!("expected a table fault, got {:?}", other),
    }
}

#[test]
fn first_refused_row_ends_the_reading() {
    let content = format!(
        "{}\nm1,d1,2023-01-01T10:00:00Z,a.jpg,true,image/jpeg\nm2,d1,2023-01-01T10:00:00Z,b.jpg,maybe,image/jpeg\n,d1,2023-01-01T10:00:00Z,c.jpg,true,image/jpeg\n",
        MEDIA_HEADER
    );
    match Medium::from_bytes(content.as_bytes()) {
        Err(DecodeError::Table(fault)) => {
            assert_eq!(fault, TableFault::Cell { row: 2, field: 5, fault: CellFault::Flag })
        }
        other => panic!("expected a table fault, got {:?}", other),
    }
}

#[test]
fn content_that_is_not_text_is_refused() {
    let mut content = Vec::from(MEDIA_HEADER.as_bytes());
    content.extend_from_slice(b"\nm1,d1,2023-01-01T10:00:00Z,\xff\xfe.jpg,true,image/jpeg\n");
    assert!(matches!(Medium::from_bytes(&content), Err(DecodeError::Csv(_))));
    assert!(matches!(read_table(&content), Err(DecodeError::Csv(_))));
}

#[test]
fn csv_rows_are_split_and_quoted() {
    let table = read_table(b"a,\"b,c\",\"d\"\"e\"\n1,,\"x\ny\"\n").unwrap();
    assert_eq!(
        table,
        vec![
            vec![String::from("a"), String::from("b,c"), String::from("d\"e")],
            vec![String::from("1"), String::from(""), String::from("x\ny")],
        ]
    );
    let written = write_table(&table).unwrap();
    assert_eq!(String::from_utf8(written).unwrap(), "a,\"b,c\",\"d\"\"e\"\n1,,\"x\ny\"\n");
}

#[test]
fn columns_are_found_by_name() {
    let header: Vec<String> = ["b", "a", "c", "a", "B"].iter().map(|s| String::from(*s)).collect();
    assert_eq!(find_column(&header, "b"), Column::At(0));
    assert_eq!(find_column(&header, "c"), Column::At(2));
    assert_eq!(find_column(&header, "B"), Column::At(4));
    assert_eq!(find_column(&header, "a"), Column::Repeated);
    assert_eq!(find_column(&header, "d"), Column::Missing);
    assert_eq!(find_column(&Vec::new(), "a"), Column::Missing);
}

#[test]
fn every_token_reads_back_as_its_variant() {
    let features = [
        (FeatureType::RoadPaved, "roadPaved"),
        (FeatureType::RoadDirt, "roadDirt"),
        (FeatureType::TrailHiking, "trailHiking"),
        (FeatureType::TrailGame, "trailGame"),
        (FeatureType::RoadUnderpass, "roadUnderpass"),
        (FeatureType::RoadOverpass, "roadOverpass"),
        (FeatureType::RoadBridge, "roadBridge"),
        (FeatureType::Culvert, "culvert"),
        (FeatureType::Burrow, "burrow"),
        (FeatureType::NestSite, "nestSite"),
        (FeatureType::Carcass, "carcass"),
        (FeatureType::WaterSource, "waterSource"),
        (FeatureType::FruitingTree, "fruitingTree"),
    ];
    for (variant, token) in features {
        assert_eq!(variant.token(), token);
        assert_eq!(FeatureType::from_token(token), Some(variant));
    }
    let types = [
        (ObservationType::Animal, "animal"),
        (ObservationType::Human, "human"),
        (ObservationType::Vehicle, "vehicle"),
        (ObservationType::Blank, "blank"),
        (ObservationType::Unknown, "unknown"),
        (ObservationType::Unclassified, "unclassified"),
    ];
    for (variant, token) in types {
        assert_eq!(variant.token(), token);
        assert_eq!(ObservationType::from_token(token), Some(variant));
    }
    for (variant, token) in [(LifeStage::Adult, "adult"), (LifeStage::Subadult, "subadult"), (LifeStage::Juvenile, "juvenile")] {
        assert_eq!(variant.token(), token);
        assert_eq!(LifeStage::from_token(token), Some(variant));
    }
    assert_eq!(CaptureMethod::from_token("activityDetection"), Some(CaptureMethod::ActivityDetection));
    assert_eq!(CaptureMethod::from_token("timeLapse"), Some(CaptureMethod::TimeLapse));
    assert_eq!(CaptureMethod::from_token("timelapse"), None);
    assert_eq!(ObservationLevel::from_token("media"), Some(ObservationLevel::Media));
    assert_eq!(ObservationLevel::from_token("event"), Some(ObservationLevel::Event));
    assert_eq!(CameraSetupType::from_token("setup"), Some(CameraSetupType::Setup));
    assert_eq!(CameraSetupType::from_token("calibration"), Some(CameraSetupType::Calibration));
    assert_eq!(Sex::from_token("female"), Some(Sex::Female));
    assert_eq!(Sex::from_token("male"), Some(Sex::Male));
    assert_eq!(ClassificationMethod::from_token("human"), Some(ClassificationMethod::Human));
    assert_eq!(ClassificationMethod::from_token("machine"), Some(ClassificationMethod::Machine));
    assert_eq!(ClassificationMethod::from_token(""), None);
}

#[test]
fn written_cells_read_back_as_their_values() {
    let values = vec![
        (Kind::Text, Value::Text(String::from("a, \"b\""))),
        (Kind::Flag, Value::Flag(true)),
        (Kind::Flag, Value::Flag(false)),
        (Kind::Count, Value::Count(0)),
        (Kind::Count, Value::Count(4294967295)),
        (Kind::Decimal, Value::Decimal(Decimal::parse("-1.5e3").unwrap())),
        (Kind::DateTime, Value::DateTime(DateTime::parse("2020-05-30T04:57:37+02:00").unwrap())),
        (Kind::Exif, Value::Exif(ExifData::parse("{\"ISO\":400}").unwrap())),
        (Kind::FeatureType, Value::FeatureType(FeatureType::Carcass)),
        (Kind::Sex, Value::Sex(Sex::Male)),
        (Kind::Text, Value::Absent),
    ];
    for (kind, value) in values {
        let cell = encode_cell(&value);
        assert_eq!(decode_cell(kind, false, &cell), Ok(value));
    }
    assert_eq!(encode_cell(&Value::Absent), "");
    assert_eq!(encode_cell(&Value::Flag(true)), "true");
    assert_eq!(encode_cell(&Value::Flag(false)), "false");
    assert_eq!(encode_cell(&Value::Count(42)), "42");
    assert_eq!(encode_cell(&Value::ObservationType(ObservationType::Unclassified)), "unclassified");
}

#[test]
fn written_tables_read_back_as_their_rows() {
    let schema = Medium::schema();
    assert_eq!(schema.len(), 11);
    assert_eq!(schema[0].name, "media_id");
    assert_eq!(schema[0].header, "mediaID");
    assert!(schema[0].required);
    assert_eq!(schema[8].header, "exifData");
    assert_eq!(schema[8].kind, Kind::Exif);
    assert!(!schema[8].required);
    let record = Medium {
        media_id: String::from("m1"),
        deployment_id: String::from("d1"),
        capture_method: Some(CaptureMethod::TimeLapse),
        timestamp: DateTime::parse("2023-01-01T10:00:00+01:00").unwrap(),
        file_path: String::from("a.jpg"),
        file_public: false,
        file_name: None,
        file_mediatype: String::from("image/jpeg"),
        exif_data: ExifData::parse("{\"ISO\":400}"),
        favorite: Some(true),
        comments: Some(String::from("line one\nline two")),
    };
    let rows = vec![record.to_values()];
    let table = encode_table(&schema, &rows);
    assert_eq!(table.len(), 2);
    assert_eq!(table[1][2], "timeLapse");
    assert_eq!(table[1][6], "");
    assert_eq!(decode_table(&schema, &table), Ok(rows));
    let again = Medium::from_values(&decode_table(&schema, &table).unwrap()[0]);
    assert_eq!(again, record);
}

#[test]
fn date_time_keeps_instant_and_offset() {
    let t = DateTime::parse("2020-05-30T04:57:37+02:00").unwrap();
    assert_eq!(t.as_str(), "2020-05-30T04:57:37+02:00");
    assert_eq!(t.timestamp(), 1590807457);
    assert_eq!(t.subsec_nanos(), 0);
    assert_eq!(t.offset_seconds(), 7200);
    let fraction = DateTime::parse("1969-12-31T23:59:59.5Z").unwrap();
    assert_eq!(fraction.timestamp(), -1);
    assert_eq!(fraction.subsec_nanos(), 500_000_000);
    assert_eq!(fraction.offset_seconds(), 0);
    let west = DateTime::parse("2020-05-29T18:57:37-08:00").unwrap();
    assert_eq!(west.timestamp(), 1590807457);
    assert_eq!(west.offset_seconds(), -28800);
}

#[test]
fn records_read_from_a_table_are_valid() {
    let content = format!(
        "{}\nm1,d1,2023-01-01T10:00:00Z,a.jpg,true,image/jpeg\n",
        MEDIA_HEADER
    );
    let media = Medium::from_bytes(content.as_bytes()).unwrap();
    assert!(camtrap_dp::record::is_valid(&media[0]));

    let mut blank_key = media[0].clone();
    blank_key.media_id = String::new();
    assert!(!camtrap_dp::record::is_valid(&blank_key));

    let mut blank_note = media[0].clone();
    blank_note.comments = Some(String::new());
    assert!(!camtrap_dp::record::is_valid(&blank_note));

    let mut full = media[0].clone();
    full.comments = Some(String::from("a note"));
    full.exif_data = ExifData::parse("{}");
    full.capture_method = Some(CaptureMethod::ActivityDetection);
    assert!(camtrap_dp::record::is_valid(&full));
}
